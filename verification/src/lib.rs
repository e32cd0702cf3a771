//! An offline Monte-Carlo path tracer over fixed-point arithmetic.
//!
//! The library covers the rendering engine proper: geometric primitives and
//! their bounding boxes, a bounding-volume hierarchy, the material scattering
//! model, texture evaluation, the recursive radiance estimator, and the
//! sample-accumulation scheme that reduces many noisy per-pixel samples into
//! one image.  Every scalar is a fixed-point number (see [`fx`]), so each
//! step of the pipeline carries an exact arithmetic contract.
//!
//! Beyond the per-function contracts, the library states and proves:
//! the surrounding merge of two bounding boxes contains both and is the
//! tightest such box ([`hitable::bounding_box::lemma_surrounding_tightest`]);
//! a ray parallel to an axis with its origin outside that axis's slab
//! misses the box
//! ([`hitable::bounding_box::lemma_parallel_outside_slab_misses`]), and on
//! axis-aligned unit-speed rays the box test is exact
//! ([`hitable::bounding_box::lemma_axis_ray_box_test_exact`]);
//! every returned hit lies strictly inside the query window
//! ([`hitable::equivalence::lemma_hit_in_window`]); a hierarchy query with
//! conservative boxes answers exactly as a brute-force linear scan over its
//! leaves ([`hitable::equivalence::lemma_hierarchy_matches_scan`]); a built
//! hierarchy keeps every primitive, with every node's bound exactly the
//! surrounding merge of its children's
//! ([`hitable::bounding_box::BoundingHierarchy::build`]); merging parallel
//! partial sums is commutative and, on grids of nonnegative colours,
//! associative ([`pixbuf::lemma_merge_commutative`],
//! [`pixbuf::lemma_merge_associative`]); and a full render is an exact
//! function of the scene, the settings and the seed ([`render::render`]),
//! so a fixed seed reproduces its image bit for bit.

pub mod camera;
pub mod fx;
pub mod hitable;
pub mod image;
pub mod pixbuf;
pub mod render;
pub mod rng;
pub mod scene;
pub mod settings;
pub mod material;
pub mod ray;
pub mod texture;
pub mod vec3;
