//! The radiance estimator and the sample-accumulation drivers.
//!
//! [`colour`] is the recursive estimator: find the nearest hit, ask the
//! material to scatter, recurse with the attenuation applied, and fall back
//! to the sky gradient on a miss or black on a terminated path.  The
//! drivers run one full-image pass per sample, each with its own generator
//! seeded from the sample index, and reduce the passes by channelwise
//! addition before normalizing — so a render with a fixed seed is
//! reproducible bit for bit, whatever order the passes were computed in.

use crate::camera::spec_get_ray;
use crate::fx::{fadd, fdiv, fmul, fsub, fx, fx_add, fx_div, fx_mul, fx_sub, fx_whole, Float, SCALE};
use crate::hitable::stats::{spec_stats_add, spec_stats_zero, Stats};
use crate::hitable::{spec_hit, spec_hit_trace, Hitable};
use crate::material::spec_scatter;
use crate::pixbuf::{pixbuf_wf, spec_merge, spec_normalize, Pixbuf};
use crate::ray::Ray;
use crate::rng::{spec_rng_state, spec_rng_unit, SampleRng};
use crate::scene::Scene;
use crate::settings::Settings;
use crate::vec3::col::{col, Col};
use crate::vec3::{v_add, v_mul, v_scale, v_unit, Vec3};
use rayon::iter::{IntoParallelIterator, ParallelIterator};
use vstd::prelude::*;

verus! {

/// The minimum hit distance: a shadow-acne guard against self-intersection
/// at the ray origin, about a thousandth on the fixed-point scale.
pub const T_MIN_GUARD: Float = 66;

/// The sky on a miss: a vertical gradient from white to sky blue by the
/// ray direction's height.
pub open spec fn spec_background(r: Ray) -> Col {
    let s = SCALE as int;
    let ud = v_unit(r.b.0);
    let t = fx_mul(s / 2, fx_add(ud.y as int, s));
    Col(
        v_add(
            v_scale(Vec3 { x: SCALE, y: SCALE, z: SCALE }, fx_sub(s, t)),
            v_scale(Vec3 { x: 32768i64, y: 45875i64, z: SCALE }, t),
        ),
    )
}

/// What the radiance estimator returns for a ray: the colour, the
/// generator state after, and the instrumentation counters after.  An
/// exhausted depth budget terminates the path as black before anything is
/// queried.
pub open spec fn spec_colour(world: Hitable, r: Ray, depth: nat, s: u64, st: Stats) -> (
    Col,
    u64,
    Stats,
)
    decreases depth,
{
    if depth == 0 {
        (Col::spec_zero(), s, st)
    } else {
        let st1 = spec_hit_trace(world, st, r, T_MIN_GUARD as int, i64::MAX as int);
        match spec_hit(world, r, T_MIN_GUARD as int, i64::MAX as int) {
            Some(rec) => {
                let sc = spec_scatter(rec.mat, s, r, rec.p, rec.normal);
                match sc.0 {
                    Some(scat) => {
                        let rest = spec_colour(world, scat.scattered, (depth - 1) as nat, sc.1, st1);
                        (Col(v_mul(scat.attenuation.0, rest.0.0)), rest.1, rest.2)
                    },
                    None => (Col::spec_zero(), sc.1, st1),
                }
            },
            None => (spec_background(r), s, st1),
        }
    }
}

/// The estimated radiance arriving along a ray: a path whose depth budget
/// is spent terminates as black at once; otherwise the nearest hit's
/// material scatters and the estimator recurses with the attenuation
/// applied, an absorbed path is black, and a miss is the sky gradient.
pub fn colour(c: &mut Stats, r: &Ray, world: &Hitable, depth: usize, rng: &mut SampleRng) -> (res:
    Col)
    ensures
        res == spec_colour(*world, *r, depth as nat, old(rng).state, *old(c)).0,
        final(rng).state == spec_colour(*world, *r, depth as nat, old(rng).state, *old(c)).1,
        *final(c) == spec_colour(*world, *r, depth as nat, old(rng).state, *old(c)).2,
    decreases depth,
{
    if depth == 0 {
        return Col::zero();
    }
    let hit = world.hit(c, r, T_MIN_GUARD, i64::MAX);
    match hit {
        Some(rec) => {
            match rec.mat.scatter(rng, r, &rec) {
                Some(scat) => {
                    let rest = colour(c, &scat.scattered, world, depth - 1, rng);
                    return scat.attenuation.mul(rest);
                },
                None => {},
            }
            Col::zero()
        },
        None => {
            let ud = r.direction().unit_vector();
            let half: Float = 32768;
            let t = fmul(half, fadd(ud.y(), SCALE));
            col(SCALE, SCALE, SCALE).scale(fsub(SCALE, t)).add(col(half, 45875, SCALE).scale(t))
        },
    }
}

/// What one pixel's sample contributes: jittered plane coordinates, a
/// camera ray, and the radiance along it.
#[verifier::opaque]
pub open spec fn spec_pixel(
    sc: Scene,
    width: int,
    height: int,
    depth: nat,
    i: int,
    j: int,
    s: u64,
    st: Stats,
) -> (Col, u64, Stats) {
    let ju = spec_rng_unit(s);
    let s1 = spec_rng_state(s);
    let u = fx_div(fx_add(fx_whole(i), ju as int), fx_whole(width));
    let jv = spec_rng_unit(s1);
    let s2 = spec_rng_state(s1);
    let v = fx_sub(SCALE as int, fx_div(fx_add(fx_whole(j), jv as int), fx_whole(height)));
    let rs = spec_get_ray(sc.camera, u as i64, v as i64, s2);
    spec_colour(sc.world, rs.0, depth, rs.1, st)
}

/// The grid after the first `k` pixels of one full-image pass, in row-major
/// order, with the generator state and counters threaded through.
pub open spec fn spec_scan(
    sc: Scene,
    width: int,
    height: int,
    depth: nat,
    k: nat,
    s: u64,
    st: Stats,
) -> (Seq<Col>, u64, Stats)
    decreases k,
{
    if k == 0 {
        (Seq::new((width * height) as nat, |x: int| Col::spec_zero()), s, st)
    } else {
        let prev = spec_scan(sc, width, height, depth, (k - 1) as nat, s, st);
        let i = (k - 1) % width;
        let j = (k - 1) as int / width;
        let px = spec_pixel(sc, width, height, depth, i, j, prev.1, prev.2);
        (prev.0.update(k - 1, px.0), px.1, px.2)
    }
}

/// One pixel of one pass: a jittered camera ray and its radiance.
fn render_pixel(
    settings: &Settings,
    scene: &Scene,
    i: usize,
    j: usize,
    c: &mut Stats,
    rng: &mut SampleRng,
) -> (pix: Col)
    requires
        1 <= settings.width <= 0x7fff_ffff,
        1 <= settings.height <= 0x7fff_ffff,
        i < settings.width,
        j < settings.height,
    ensures
        pix == spec_pixel(
            *scene,
            settings.width as int,
            settings.height as int,
            settings.depth as nat,
            i as int,
            j as int,
            old(rng).state,
            *old(c),
        ).0,
        final(rng).state == spec_pixel(
            *scene,
            settings.width as int,
            settings.height as int,
            settings.depth as nat,
            i as int,
            j as int,
            old(rng).state,
            *old(c),
        ).1,
        *final(c) == spec_pixel(
            *scene,
            settings.width as int,
            settings.height as int,
            settings.depth as nat,
            i as int,
            j as int,
            old(rng).state,
            *old(c),
        ).2,
{
    proof {
        reveal(spec_pixel);
    }
    let u = fdiv(fadd(fx(i as i64), rng.next_unit()), fx(settings.width as i64));
    let v = fsub(SCALE, fdiv(fadd(fx(j as i64), rng.next_unit()), fx(settings.height as i64)));
    let ray = scene.camera.get_ray(u, v, rng);
    colour(c, &ray, &scene.world, settings.depth, rng)
}

/// One full-image pass: one jittered camera ray and radiance estimate per
/// pixel, written into a fresh accumulator grid.
#[verifier::rlimit(100)]
pub fn render_once(c: &mut Stats, settings: &Settings, scene: &Scene, rng: &mut SampleRng) -> (res:
    Pixbuf)
    requires
        1 <= settings.width <= 0x7fff_ffff,
        1 <= settings.height <= 0x7fff_ffff,
        settings.width * settings.height <= usize::MAX,
    ensures
        res.w == settings.width,
        res.h == settings.height,
        pixbuf_wf(res),
        res.pixels@ == spec_scan(
            *scene,
            settings.width as int,
            settings.height as int,
            settings.depth as nat,
            (settings.width * settings.height) as nat,
            old(rng).state,
            *old(c),
        ).0,
        final(rng).state == spec_scan(
            *scene,
            settings.width as int,
            settings.height as int,
            settings.depth as nat,
            (settings.width * settings.height) as nat,
            old(rng).state,
            *old(c),
        ).1,
        *final(c) == spec_scan(
            *scene,
            settings.width as int,
            settings.height as int,
            settings.depth as nat,
            (settings.width * settings.height) as nat,
            old(rng).state,
            *old(c),
        ).2,
{
    let width = settings.width;
    let height = settings.height;
    let depth = settings.depth;
    let mut res = Pixbuf::new(width, height);
    proof {
        assert(res.pixels@ =~= spec_scan(
            *scene,
            width as int,
            height as int,
            depth as nat,
            0,
            old(rng).state,
            *old(c),
        ).0);
    }
    let mut j: usize = 0;
    while j < height
        invariant
            j <= height,
            1 <= width <= 0x7fff_ffff,
            1 <= height <= 0x7fff_ffff,
            width * height <= usize::MAX,
            width == settings.width,
            height == settings.height,
            depth == settings.depth,
            res.w == width,
            res.h == height,
            pixbuf_wf(res),
            res.pixels@ == spec_scan(
                *scene,
                width as int,
                height as int,
                depth as nat,
                (j * width) as nat,
                old(rng).state,
                *old(c),
            ).0,
            rng.state == spec_scan(
                *scene,
                width as int,
                height as int,
                depth as nat,
                (j * width) as nat,
                old(rng).state,
                *old(c),
            ).1,
            *c == spec_scan(
                *scene,
                width as int,
                height as int,
                depth as nat,
                (j * width) as nat,
                old(rng).state,
                *old(c),
            ).2,
        decreases height - j,
    {
        proof {
            lemma_row_bound(j as int, width as int, height as int);
        }
        let mut i: usize = 0;
        while i < width
            invariant
                i <= width,
                j < height,
                1 <= width <= 0x7fff_ffff,
                1 <= height <= 0x7fff_ffff,
                width * height <= usize::MAX,
                width == settings.width,
                height == settings.height,
                depth == settings.depth,
                res.w == width,
                res.h == height,
                pixbuf_wf(res),
                j * width + i <= width * height,
                j * width + width <= width * height,
                res.pixels@ == spec_scan(
                    *scene,
                    width as int,
                    height as int,
                    depth as nat,
                    (j * width + i) as nat,
                    old(rng).state,
                    *old(c),
                ).0,
                rng.state == spec_scan(
                    *scene,
                    width as int,
                    height as int,
                    depth as nat,
                    (j * width + i) as nat,
                    old(rng).state,
                    *old(c),
                ).1,
                *c == spec_scan(
                    *scene,
                    width as int,
                    height as int,
                    depth as nat,
                    (j * width + i) as nat,
                    old(rng).state,
                    *old(c),
                ).2,
            decreases width - i,
        {
            let pix = render_pixel(settings, scene, i, j, c, rng);
            res.put(i, j, pix);
            proof {
                lemma_scan_step(j as int, width as int, i as int);
            }
            i += 1;
        }
        proof {
            vstd::arithmetic::mul::lemma_mul_is_distributive_add_other_way(
                width as int,
                j as int,
                1,
            );
        }
        j += 1;
    }
    proof {
        vstd::arithmetic::mul::lemma_mul_is_commutative(height as int, width as int);
    }
    res
}

/// Within the image, a row index keeps the running pixel count in range.
proof fn lemma_row_bound(j: int, width: int, height: int)
    by (nonlinear_arith)
    requires
        0 <= j < height,
        1 <= width,
    ensures
        j * width + width <= width * height,
        j * width >= 0,
{
}

/// The running pixel count `j * width + i` decomposes back into its row
/// and column.
proof fn lemma_scan_step(j: int, width: int, i: int)
    requires
        0 <= i < width,
        0 <= j,
    ensures
        (j * width + i) % width == i,
        (j * width + i) / width == j,
        j * width + i == i + width * j,
{
    vstd::arithmetic::div_mod::lemma_fundamental_div_mod_converse(
        j * width + i,
        width,
        j,
        i,
    );
    vstd::arithmetic::mul::lemma_mul_is_commutative(j, width);
}

/// The seed of one sample's generator: the base seed advanced by the
/// sample index, so every sample draws from its own stream.
pub open spec fn spec_sample_seed(seed: u64, idx: int) -> u64 {
    vstd::wrapping::u64_specs::wrapping_add(seed, idx as u64)
}

/// The pixel grid that sample `idx` contributes.
pub open spec fn spec_sample(sc: Scene, settings: Settings, seed: u64, idx: int) -> Seq<Col> {
    spec_scan(
        sc,
        settings.width as int,
        settings.height as int,
        settings.depth as nat,
        (settings.width * settings.height) as nat,
        spec_sample_seed(seed, idx),
        spec_stats_zero(),
    ).0
}

/// The instrumentation counters that sample `idx` accumulates.
pub open spec fn spec_sample_stats(sc: Scene, settings: Settings, seed: u64, idx: int) -> Stats {
    spec_scan(
        sc,
        settings.width as int,
        settings.height as int,
        settings.depth as nat,
        (settings.width * settings.height) as nat,
        spec_sample_seed(seed, idx),
        spec_stats_zero(),
    ).2
}

/// One sample's full-image pass, from its own freshly seeded generator.
pub fn render_sample(settings: &Settings, scene: &Scene, seed: u64, idx: usize) -> (res: (
    Stats,
    Pixbuf,
))
    requires
        1 <= settings.width <= 0x7fff_ffff,
        1 <= settings.height <= 0x7fff_ffff,
        settings.width * settings.height <= usize::MAX,
    ensures
        res.1.w == settings.width,
        res.1.h == settings.height,
        pixbuf_wf(res.1),
        res.1.pixels@ == spec_sample(*scene, *settings, seed, idx as int),
        res.0 == spec_sample_stats(*scene, *settings, seed, idx as int),
{
    let mut rng = SampleRng::new(seed.wrapping_add(idx as u64));
    let mut stats = Stats::new();
    let buf = render_once(&mut stats, settings, scene, &mut rng);
    (stats, buf)
}

/// Relies on rayon's `into_par_iter`, `map` and `collect` over a sample
/// index range: the collected vector holds, in index order, exactly what
/// the closure returns for each index, and the closure only calls the
/// verified per-sample renderer.
#[verifier::external_body]
fn render_samples_parallel(settings: &Settings, scene: &Scene, seed: u64) -> (bufs: Vec<
    (Stats, Pixbuf),
>)
    requires
        1 <= settings.width <= 0x7fff_ffff,
        1 <= settings.height <= 0x7fff_ffff,
        settings.width * settings.height <= usize::MAX,
    ensures
        bufs@.len() == settings.samples,
        forall|i: int|
            0 <= i < bufs@.len() ==> {
                &&& (#[trigger] bufs@[i]).1.w == settings.width
                &&& bufs@[i].1.h == settings.height
                &&& pixbuf_wf(bufs@[i].1)
                &&& bufs@[i].1.pixels@ == spec_sample(*scene, *settings, seed, i)
                &&& bufs@[i].0 == spec_sample_stats(*scene, *settings, seed, i)
            },
{
    (0..settings.samples).into_par_iter().map(|i| render_sample(settings, scene, seed, i)).collect()
}

/// The accumulated grid of the first `k` samples.
pub open spec fn spec_accum(sc: Scene, settings: Settings, seed: u64, k: nat) -> Seq<Col>
    decreases k,
{
    if k == 0 {
        Seq::new((settings.width * settings.height) as nat, |x: int| Col::spec_zero())
    } else {
        spec_merge(
            spec_accum(sc, settings, seed, (k - 1) as nat),
            spec_sample(sc, settings, seed, k - 1),
        )
    }
}

/// The accumulated counters of the first `k` samples.
pub open spec fn spec_stats_accum(sc: Scene, settings: Settings, seed: u64, k: nat) -> Stats
    decreases k,
{
    if k == 0 {
        spec_stats_zero()
    } else {
        spec_stats_add(
            spec_stats_accum(sc, settings, seed, (k - 1) as nat),
            spec_sample_stats(sc, settings, seed, k - 1),
        )
    }
}

/// What a full render returns: every sample's grid summed, then divided
/// through by the sample count.
pub open spec fn spec_render(sc: Scene, settings: Settings, seed: u64) -> Seq<Col> {
    spec_normalize(
        spec_accum(sc, settings, seed, settings.samples as nat),
        settings.samples as int,
    )
}

/// A full render: all samples computed in parallel, merged in index order,
/// and normalized.  For a fixed seed the result is the same whenever it is
/// recomputed.
pub fn render(settings: &Settings, scene: &Scene, seed: u64) -> (p: Pixbuf)
    requires
        1 <= settings.width <= 0x7fff_ffff,
        1 <= settings.height <= 0x7fff_ffff,
        settings.width * settings.height <= usize::MAX,
        settings.samples <= i64::MAX,
    ensures
        p.w == settings.width,
        p.h == settings.height,
        pixbuf_wf(p),
        p.pixels@ == spec_render(*scene, *settings, seed),
{
    let (_stats, p) = render_accumulate(settings, scene, seed);
    p
}

/// A full render that also reports the merged instrumentation counters.
pub fn render_with_stats(settings: &Settings, scene: &Scene, seed: u64) -> (r: (Stats, Pixbuf))
    requires
        1 <= settings.width <= 0x7fff_ffff,
        1 <= settings.height <= 0x7fff_ffff,
        settings.width * settings.height <= usize::MAX,
        settings.samples <= i64::MAX,
    ensures
        r.1.w == settings.width,
        r.1.h == settings.height,
        pixbuf_wf(r.1),
        r.1.pixels@ == spec_render(*scene, *settings, seed),
        r.0 == spec_stats_accum(*scene, *settings, seed, settings.samples as nat),
{
    render_accumulate(settings, scene, seed)
}

/// Runs the parallel samples and reduces them in index order.
fn render_accumulate(settings: &Settings, scene: &Scene, seed: u64) -> (r: (Stats, Pixbuf))
    requires
        1 <= settings.width <= 0x7fff_ffff,
        1 <= settings.height <= 0x7fff_ffff,
        settings.width * settings.height <= usize::MAX,
        settings.samples <= i64::MAX,
    ensures
        r.1.w == settings.width,
        r.1.h == settings.height,
        pixbuf_wf(r.1),
        r.1.pixels@ == spec_render(*scene, *settings, seed),
        r.0 == spec_stats_accum(*scene, *settings, seed, settings.samples as nat),
{
    let bufs = render_samples_parallel(settings, scene, seed);
    let mut acc = Pixbuf::new(settings.width, settings.height);
    let mut stats = Stats::new();
    proof {
        assert(acc.pixels@ =~= spec_accum(*scene, *settings, seed, 0));
    }
    let mut idx: usize = 0;
    while idx < bufs.len()
        invariant
            idx <= bufs@.len(),
            bufs@.len() == settings.samples,
            forall|i: int|
                0 <= i < bufs@.len() ==> {
                    &&& (#[trigger] bufs@[i]).1.w == settings.width
                    &&& bufs@[i].1.h == settings.height
                    &&& pixbuf_wf(bufs@[i].1)
                    &&& bufs@[i].1.pixels@ == spec_sample(*scene, *settings, seed, i)
                    &&& bufs@[i].0 == spec_sample_stats(*scene, *settings, seed, i)
                },
            acc.w == settings.width,
            acc.h == settings.height,
            pixbuf_wf(acc),
            acc.pixels@ == spec_accum(*scene, *settings, seed, idx as nat),
            stats == spec_stats_accum(*scene, *settings, seed, idx as nat),
        decreases bufs@.len() - idx,
    {
        acc.add_assign(&bufs[idx].1);
        stats.add_assign(bufs[idx].0);
        idx += 1;
    }
    acc.div_assign(settings.samples);
    (stats, acc)
}

} // verus!
