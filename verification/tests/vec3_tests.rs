//! Vector arithmetic and parsing.

use raytrace::fx::{fdiv, fsqrt, fx};
use raytrace::vec3::parse::ParseVec3Error;
use raytrace::vec3::Vec3;

#[test]
fn test_zero() {
    assert_eq!(Vec3::new(0, 0, 0), Vec3::zero());
}

#[test]
fn test_new() {
    assert_eq!(Vec3 { x: fx(1), y: fx(2), z: fx(3) }, Vec3::new(fx(1), fx(2), fx(3)));
}

#[test]
fn test_squared_length() {
    assert_eq!(fx(3), Vec3::new(fx(1), fx(1), fx(1)).squared_length());
}

#[test]
fn test_length() {
    assert_eq!(fx(5), Vec3::new(fx(3), fx(4), fx(0)).length());
    assert_eq!(fx(5), Vec3::new(fx(0), fx(3), fx(4)).length());
}

#[test]
fn test_make_unit_vector() {
    let mut v = Vec3::new(fx(5), fx(0), fx(0));
    v.make_unit_vector();
    assert_eq!(Vec3::new(fx(1), fx(0), fx(0)), v);
}

#[test]
fn test_parse() {
    assert_eq!(Ok(Vec3::new(fx(1), fx(2), fx(3))), Vec3::parse(" 1  2 3"));
    let half = fx(1) / 2;
    assert_eq!(
        Ok(Vec3::new(fx(1) + half, fx(2) + half, fx(3) + half)),
        Vec3::parse("1.5 2.5 3.5")
    );
}

#[test]
fn test_parse_errors() {
    assert_eq!(Err(ParseVec3Error::RegexMatchError), Vec3::parse("not numbers"));
    assert_eq!(Err(ParseVec3Error::RegexMatchError), Vec3::parse("1 2"));
    assert_eq!(Err(ParseVec3Error::NumberFormatError), Vec3::parse("1..2 3 4"));
    assert_eq!(Err(ParseVec3Error::NumberFormatError), Vec3::parse(". 1 2"));
}

#[test]
fn test_neg() {
    assert_eq!(
        Vec3::new(fx(8), fx(6), fx(4)),
        Vec3::new(fx(-8), fx(-6), fx(-4)).neg()
    );
}

#[test]
fn test_index() {
    let v = Vec3::new(fx(8), fx(5), fx(2));
    assert_eq!(fx(8), v.x);
    assert_eq!(fx(5), v.y);
    assert_eq!(fx(2), v.z);
}

#[test]
fn test_add() {
    assert_eq!(
        Vec3::new(fx(14), fx(-9), fx(-3)),
        Vec3::new(fx(2713), fx(2), fx(-1)).add(Vec3::new(fx(-2699), fx(-11), fx(-2)))
    );
}

#[test]
fn test_sub() {
    assert_eq!(
        Vec3::new(fx(4), fx(-2), fx(5)),
        Vec3::new(fx(43), fx(18), fx(-7)).sub(Vec3::new(fx(39), fx(20), fx(-12)))
    );
}

#[test]
fn test_mul() {
    assert_eq!(
        Vec3::new(fx(18), fx(-12), fx(14)),
        Vec3::new(fx(-6), fx(-4), fx(7)).mul(Vec3::new(fx(-3), fx(3), fx(2)))
    );
    let half = fx(1) / 2;
    assert_eq!(
        Vec3::new(fx(5), fx(3), fx(-1)),
        Vec3::new(fx(10), fx(6), fx(-2)).scale(half)
    );
    assert_eq!(
        Vec3::new(fx(6), fx(21), fx(54)),
        Vec3::new(fx(2), fx(7), fx(18)).scale(fx(3))
    );
}

#[test]
fn test_div() {
    let half = fx(1) / 2;
    assert_eq!(
        Vec3::new(half, fx(12), fx(-7)),
        Vec3::new(fx(26), fx(-6), fx(-21)).div(Vec3::new(fx(52), -half, fx(3)))
    );
    assert_eq!(
        Vec3::new(fx(17), fx(2), fx(43)),
        Vec3::new(fx(119), fx(14), fx(301)).scale_div(fx(7))
    );
}

#[test]
fn test_dot() {
    assert_eq!(fx(32), Vec3::new(fx(1), fx(2), fx(3)).dot(Vec3::new(fx(4), fx(5), fx(6))));
}

#[test]
fn test_cross() {
    assert_eq!(
        Vec3::new(fx(0), fx(0), fx(1)),
        Vec3::new(fx(1), fx(0), fx(0)).cross(Vec3::new(fx(0), fx(1), fx(0)))
    );
    assert_eq!(
        Vec3::new(fx(1), fx(0), fx(0)),
        Vec3::new(fx(0), fx(1), fx(0)).cross(Vec3::new(fx(0), fx(0), fx(1)))
    );
    assert_eq!(
        Vec3::new(fx(0), fx(1), fx(0)),
        Vec3::new(fx(0), fx(0), fx(1)).cross(Vec3::new(fx(1), fx(0), fx(0)))
    );
}

#[test]
fn test_add_assign() {
    let mut v = Vec3::new(fx(-15), fx(3), fx(7));
    v = v.add(Vec3::new(fx(33), fx(1), fx(-5)));
    assert_eq!(Vec3::new(fx(18), fx(4), fx(2)), v);
}

#[test]
fn test_sub_assign() {
    let mut v = Vec3::new(fx(3), fx(-7), fx(92));
    v = v.sub(Vec3::new(fx(10), fx(17), fx(22)));
    assert_eq!(Vec3::new(fx(-7), fx(-24), fx(70)), v);
}

#[test]
fn test_mul_assign() {
    let half = fx(1) / 2;
    let mut v = Vec3::new(fx(2), fx(3), fx(4));
    v = v.mul(Vec3::new(half, fx(8), fx(-1)));
    assert_eq!(Vec3::new(fx(1), fx(24), fx(-4)), v);
    v = v.scale(fx(3));
    assert_eq!(Vec3::new(fx(3), fx(72), fx(-12)), v);
}

#[test]
fn test_div_assign() {
    let mut v = Vec3::new(fx(18), fx(21), fx(30));
    v = v.div(Vec3::new(fx(2), fx(7), fx(5)));
    assert_eq!(Vec3::new(fx(9), fx(3), fx(6)), v);
    v = v.scale_div(fx(3));
    assert_eq!(Vec3::new(fx(3), fx(1), fx(2)), v);
}

#[test]
fn test_unit_vector_diagonal() {
    let u = Vec3::new(fx(1), fx(1), fx(0)).unit_vector();
    let expected = fdiv(fx(1), fsqrt(fx(2)));
    assert!((u.x - expected).abs() <= 2);
    assert!((u.y - expected).abs() <= 2);
    assert_eq!(0, u.z);
}
