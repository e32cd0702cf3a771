//! Parsing a vector from text.
//!
//! A vector is written as three decimal numbers separated by whitespace.
//! The three number tokens are found by a regular expression; each token is
//! then converted to a fixed-point scalar by exact decimal arithmetic,
//! truncating fractions below the fixed-point resolution.

use crate::fx::{clip, Float, SCALE};
use crate::vec3::Vec3;
use vstd::prelude::*;

verus! {

/// The error of a failed vector parse: the text held no three number
/// tokens, or a token was not a well-formed number.
#[derive(Debug, PartialEq, Eq, Structural)]
pub enum ParseVec3Error {
    RegexMatchError,
    NumberFormatError,
}

/// The most digits a number token may carry; longer tokens are rejected
/// rather than rounded.
pub const MAX_NUMBER_LEN: usize = 18;

/// Whether a byte is an ASCII digit.
pub open spec fn is_digit(b: u8) -> bool {
    48 <= b <= 57
}

/// Whether a byte sequence is a nonempty run of digits and dots, the shape
/// of a number token.
pub open spec fn is_number_bytes(s: Seq<u8>) -> bool {
    s.len() >= 1 && (forall|i: int| 0 <= i < s.len() ==> is_digit(#[trigger] s[i]) || s[i] == 46)
}

/// The index of the first dot, or the length when there is none.
pub open spec fn dot_pos(s: Seq<u8>) -> int
    decreases s.len(),
{
    if s.len() == 0 {
        0
    } else if s[0] == 46 {
        0
    } else {
        1 + dot_pos(s.drop_first())
    }
}

/// The integer value of the digit run `s[i..j)`.
pub open spec fn digits_value(s: Seq<u8>, i: int, j: int) -> int
    decreases j - i,
{
    if j <= i {
        0
    } else {
        digits_value(s, i, j - 1) * 10 + (s[j - 1] - 48)
    }
}

/// Ten to the `k`.
pub open spec fn pow10(k: nat) -> int
    decreases k,
{
    if k == 0 {
        1
    } else {
        10 * pow10((k - 1) as nat)
    }
}

/// What parsing one number token yields: the fixed-point value of
/// `digits [ '.' digits ]`, truncated to the fixed-point resolution, or
/// nothing for an empty, overlong or malformed token.
pub open spec fn spec_parse_number(s: Seq<u8>) -> Option<int> {
    let d = dot_pos(s);
    if 1 <= s.len() <= MAX_NUMBER_LEN && (forall|i: int|
        0 <= i < s.len() && i != d ==> is_digit(#[trigger] s[i])) && !(s.len() == 1 && d == 0) {
        let iv = digits_value(s, 0, d);
        let fv = if d < s.len() {
            digits_value(s, d + 1, s.len() as int)
        } else {
            0
        };
        let k = if d < s.len() {
            (s.len() - d - 1) as nat
        } else {
            0nat
        };
        Some(clip(iv * SCALE + (fv * SCALE) / pow10(k)))
    } else {
        None
    }
}

/// A digit run's value is bounded by ten to its length.
proof fn lemma_digits_bound(s: Seq<u8>, i: int, j: int)
    requires
        forall|k: int| i <= k < j ==> is_digit(#[trigger] s[k]),
    ensures
        0 <= digits_value(s, i, j) < pow10(if j <= i {
            0nat
        } else {
            (j - i) as nat
        }),
    decreases j - i,
{
    if j <= i {
    } else {
        lemma_digits_bound(s, i, j - 1);
        assert(pow10((j - i) as nat) == 10 * pow10((j - i - 1) as nat));
        let prev = digits_value(s, i, j - 1);
        assert(prev * 10 <= (pow10((j - i - 1) as nat) - 1) * 10) by (nonlinear_arith)
            requires
                prev <= pow10((j - i - 1) as nat) - 1,
        ;
        assert(prev * 10 >= 0) by (nonlinear_arith)
            requires
                prev >= 0,
        ;
    }
}

/// Ten to the eighteenth, written out.
proof fn lemma_pow10_18()
    ensures
        pow10(18) == 0xDE0_B6B3_A764_0000,
{
    reveal_with_fuel(pow10, 19);
}

/// Powers of ten grow with the exponent.
proof fn lemma_pow10_monotone(a: nat, b: nat)
    requires
        a <= b,
    ensures
        0 < pow10(a) <= pow10(b),
    decreases b,
{
    if b == 0 {
    } else if a == b {
        lemma_pow10_monotone((a - 1) as nat, (b - 1) as nat);
    } else {
        lemma_pow10_monotone(a, (b - 1) as nat);
    }
}

/// The first dot really is at the first dot: a prefix free of dots puts
/// `dot_pos` at its end.
proof fn lemma_dot_pos(s: Seq<u8>, d: int)
    requires
        0 <= d <= s.len(),
        forall|j: int| 0 <= j < d ==> s[j] != 46,
        d < s.len() ==> s[d] == 46,
    ensures
        dot_pos(s) == d,
    decreases d,
{
    if s.len() == 0 {
    } else if d == 0 {
    } else {
        assert(s[0] != 46);
        let t = s.drop_first();
        assert(forall|j: int| 0 <= j < d - 1 ==> #[trigger] t[j] == s[j + 1] && t[j] != 46);
        assert(d - 1 < t.len() ==> t[d - 1] == 46);
        lemma_dot_pos(t, d - 1);
    }
}

/// Parses one number token to a fixed-point scalar.
pub fn parse_number(bytes: &Vec<u8>) -> (r: Result<Float, ParseVec3Error>)
    ensures
        spec_parse_number(bytes@) matches Some(v) ==> r matches Ok(f) && f as int == v,
        spec_parse_number(bytes@) is None ==> r == Err::<Float, _>(
            ParseVec3Error::NumberFormatError,
        ),
{
    let ghost s = bytes@;
    let n = bytes.len();
    if n < 1 || n > MAX_NUMBER_LEN {
        return Err(ParseVec3Error::NumberFormatError);
    }
    // the first dot, or the length when there is none
    let mut d: usize = 0;
    while d < n && bytes[d] != 46
        invariant
            d <= n,
            n == s.len(),
            s == bytes@,
            forall|j: int| 0 <= j < d ==> s[j] != 46,
        decreases n - d,
    {
        d += 1;
    }
    proof {
        lemma_dot_pos(s, d as int);
    }
    if n == 1 && d == 0 {
        return Err(ParseVec3Error::NumberFormatError);
    }
    // every position but the dot must hold a digit
    let mut chk: usize = 0;
    while chk < n
        invariant
            chk <= n,
            n == s.len(),
            s == bytes@,
            d <= n,
            dot_pos(s) == d,
            n > 1 || d > 0,
            n <= MAX_NUMBER_LEN,
            forall|j: int| 0 <= j < chk && j != d ==> is_digit(#[trigger] s[j]),
        decreases n - chk,
    {
        if chk != d {
            let b = bytes[chk];
            if b < 48 || b > 57 {
                return Err(ParseVec3Error::NumberFormatError);
            }
        }
        chk += 1;
    }
    proof {
        lemma_pow10_18();
        lemma_digits_bound(s, 0, d as int);
        lemma_pow10_monotone((d as int) as nat, 18);
    }
    // the integer part
    let mut iv: i128 = 0;
    let mut i: usize = 0;
    while i < d
        invariant
            i <= d <= n,
            n == s.len(),
            s == bytes@,
            n <= 18,
            forall|j: int| 0 <= j < n && j != d ==> is_digit(#[trigger] s[j]),
            iv == digits_value(s, 0, i as int),
            0 <= iv < pow10(18),
            pow10(18) == 0xDE0_B6B3_A764_0000,
        decreases d - i,
    {
        proof {
            lemma_digits_bound(s, 0, i as int);
            lemma_pow10_monotone((i as int) as nat, 17);
            reveal_with_fuel(pow10, 19);
            assert(iv * 10 <= (pow10(17) - 1) * 10) by (nonlinear_arith)
                requires
                    iv <= pow10(17) - 1,
            ;
            assert(iv * 10 >= 0) by (nonlinear_arith)
                requires
                    iv >= 0,
            ;
        }
        iv = iv * 10 + (bytes[i] - 48) as i128;
        i += 1;
    }
    // the fractional part
    let mut fv: i128 = 0;
    let mut k: usize = 0;
    if d < n {
        let mut f: usize = d + 1;
        while f < n
            invariant
                d + 1 <= f <= n,
                d < n,
                n == s.len(),
                s == bytes@,
                n <= 18,
                forall|j: int| 0 <= j < n && j != d ==> is_digit(#[trigger] s[j]),
                fv == digits_value(s, d + 1, f as int),
                0 <= fv < pow10(18),
                pow10(18) == 0xDE0_B6B3_A764_0000,
            decreases n - f,
        {
            proof {
                lemma_digits_bound(s, d + 1, f as int);
                lemma_pow10_monotone((f - d - 1) as nat, 17);
                reveal_with_fuel(pow10, 19);
                assert(fv * 10 <= (pow10(17) - 1) * 10) by (nonlinear_arith)
                    requires
                        fv <= pow10(17) - 1,
                ;
                assert(fv * 10 >= 0) by (nonlinear_arith)
                    requires
                        fv >= 0,
                ;
            }
            fv = fv * 10 + (bytes[f] - 48) as i128;
            f += 1;
        }
        k = n - d - 1;
    }
    // ten to the number of fraction digits
    let mut p10: i128 = 1;
    let mut e: usize = 0;
    while e < k
        invariant
            e <= k <= 18,
            p10 == pow10(e as nat),
            0 < p10,
            p10 <= pow10(18),
            pow10(18) == 0xDE0_B6B3_A764_0000,
        decreases k - e,
    {
        proof {
            lemma_pow10_monotone(((e + 1) as int) as nat, 18);
            lemma_pow10_18();
        }
        p10 = p10 * 10;
        e += 1;
    }
    proof {
        lemma_digits_bound(s, 0, d as int);
        if d < n {
            lemma_digits_bound(s, d + 1, n as int);
        }
        lemma_pow10_monotone((k as int) as nat, 18);
    }
    let fscaled: i128 = fv * (SCALE as i128);
    let fpart: i128 = match fscaled.checked_div(p10) {
        Some(q) => q,
        None => 0,
    };
    proof {
        assert(fscaled >= 0);
        vstd::arithmetic::div_mod::lemma_div_pos_is_pos(fscaled as int, p10 as int);
        vstd::arithmetic::div_mod::lemma_div_nonincreasing(fscaled as int, p10 as int);
    }
    let total: i128 = iv * (SCALE as i128) + fpart;
    let v = crate::fx::clip128(total);
    Ok(v)
}

/// What the number-token search returns on a text: the three captured
/// byte runs, or nothing when the text holds no three number tokens.  The
/// capture groups of a fixed pattern are a function of the text alone.
pub uninterp spec fn captures_of(s: Seq<char>) -> Option<(Seq<u8>, Seq<u8>, Seq<u8>)>;

/// Relies on regex::Regex::new and Regex::captures with the fixed pattern
/// `\s*([0-9.]+)\s+([0-9.]+)\s+([0-9.]+)`: the match result is a function
/// of the text alone, named [`captures_of`]; on a match, the three capture
/// groups hold nonempty runs of digits and dots, in order of appearance.
#[verifier::external_body]
fn capture_three_numbers(s: &str) -> (r: Option<(Vec<u8>, Vec<u8>, Vec<u8>)>)
    ensures
        (r is Some) == (captures_of(s@) is Some),
        r matches Some(g) ==> ({
            &&& captures_of(s@) matches Some(c)
            &&& g.0@ == c.0
            &&& g.1@ == c.1
            &&& g.2@ == c.2
            &&& is_number_bytes(g.0@)
            &&& is_number_bytes(g.1@)
            &&& is_number_bytes(g.2@)
        }),
{
    let re = regex::Regex::new(r"\s*([0-9.]+)\s+([0-9.]+)\s+([0-9.]+)").unwrap();
    match re.captures(s) {
        Some(groups) => Some(
            (
                groups[1].as_bytes().to_vec(),
                groups[2].as_bytes().to_vec(),
                groups[3].as_bytes().to_vec(),
            ),
        ),
        None => None,
    }
}

/// What parsing a vector from text yields: no three number tokens fails
/// the match, a malformed or overlong token fails its conversion, and
/// otherwise the three tokens' fixed-point values make the vector.
pub open spec fn spec_parse_vec3(s: Seq<char>) -> Result<Vec3, ParseVec3Error> {
    match captures_of(s) {
        None => Err(ParseVec3Error::RegexMatchError),
        Some(c) => match spec_parse_number(c.0) {
            None => Err(ParseVec3Error::NumberFormatError),
            Some(x) => match spec_parse_number(c.1) {
                None => Err(ParseVec3Error::NumberFormatError),
                Some(y) => match spec_parse_number(c.2) {
                    None => Err(ParseVec3Error::NumberFormatError),
                    Some(z) => Ok(Vec3 { x: x as i64, y: y as i64, z: z as i64 }),
                },
            },
        },
    }
}

impl Vec3 {
    /// Parses a vector from text: three whitespace-separated decimal
    /// numbers, found by a regular expression and converted exactly to
    /// fixed point.  Fails with `RegexMatchError` when no three number
    /// tokens are found, and with `NumberFormatError` when a token is
    /// malformed or overlong.
    pub fn parse(s: &str) -> (r: Result<Vec3, ParseVec3Error>)
        ensures
            r == spec_parse_vec3(s@),
    {
        match capture_three_numbers(s) {
            None => Err(ParseVec3Error::RegexMatchError),
            Some((g0, g1, g2)) => {
                let x = match parse_number(&g0) {
                    Ok(v) => v,
                    Err(e) => {
                        return Err(e);
                    },
                };
                let y = match parse_number(&g1) {
                    Ok(v) => v,
                    Err(e) => {
                        return Err(e);
                    },
                };
                let z = match parse_number(&g2) {
                    Ok(v) => v,
                    Err(e) => {
                        return Err(e);
                    },
                };
                proof {
                    assert(spec_parse_number(g0@) == Some(x as int) && spec_parse_number(g1@)
                        == Some(y as int) && spec_parse_number(g2@) == Some(z as int)) by {
                        assert(spec_parse_number(g0@) is Some);
                        assert(spec_parse_number(g1@) is Some);
                        assert(spec_parse_number(g2@) is Some);
                    }
                }
                Ok(Vec3::new(x, y, z))
            },
        }
    }
}

} // verus!
