//! Conversion between physical (device-pixel) and logical (DPI-corrected)
//! screen coordinates.
//!
//! A monitor's scale factor is kept as an exact positive rational number,
//! so every conversion is integer arithmetic: a physical value `p` at scale
//! `num / den` normalizes to `p * den / num`, rounded to the nearest
//! integer with ties away from zero (standard rounding).

use vstd::prelude::*;
use vstd::arithmetic::div_mod::{lemma_fundamental_div_mod, lemma_mod_division_less_than_divisor};
use vstd::math::abs;

verus! {

/// A monitor scale factor, the exact positive rational `num / den`.
///
/// Scale factors reported by the operating system are positive; a zero
/// component is a contract violation and is refused by [`Scale::new`].
#[derive(Clone, Copy, Debug, PartialEq, Eq, Structural)]
pub struct Scale {
    pub num: u32,
    pub den: u32,
}

impl Scale {
    /// Both components of the rational are positive.
    pub open spec fn valid(self) -> bool {
        self.num > 0 && self.den > 0
    }

    /// The identity scale factor, `1 / 1`.
    pub fn one() -> (s: Scale)
        ensures
            s.valid(),
            s == (Scale { num: 1u32, den: 1u32 }),
    {
        Scale { num: 1, den: 1 }
    }

    /// Builds a scale factor, refusing a zero numerator or denominator.
    pub fn new(num: u32, den: u32) -> (r: Option<Scale>)
        ensures
            r is Some <==> num > 0 && den > 0,
            r matches Some(s) ==> s == (Scale { num, den }) && s.valid(),
    {
        if num > 0 && den > 0 {
            Some(Scale { num, den })
        } else {
            None
        }
    }
}

/// A point in logical (DPI-corrected) screen space.
#[derive(Clone, Copy, Debug, PartialEq, Eq, Structural)]
pub struct PointerCoordinate {
    pub x: i64,
    pub y: i64,
}

/// Quotient `a / b` rounded to the nearest integer, ties upward;
/// for `a >= 0` this is rounding with ties away from zero.
pub open spec fn round_div_nonneg(a: int, b: int) -> int
    recommends
        0 <= a,
        0 < b,
{
    (2 * a + b) / (2 * b)
}

/// Quotient `a / b` rounded to the nearest integer, ties away from zero.
pub open spec fn round_div_away(a: int, b: int) -> int
    recommends
        0 < b,
{
    if a >= 0 {
        round_div_nonneg(a, b)
    } else {
        -round_div_nonneg(-a, b)
    }
}

/// `round_div_nonneg(a, b)` is the nearest integer to `a / b`: it is
/// nonnegative, at most `a`, and scaling it back by `b` lands within
/// half of `b` of `a`.
pub proof fn lemma_round_div_nonneg_props(a: int, b: int)
    requires
        0 <= a,
        0 < b,
    ensures
        0 <= round_div_nonneg(a, b) <= a,
        2 * abs(round_div_nonneg(a, b) * b - a) <= b,
{
    let n = 2 * a + b;
    let d = 2 * b;
    let q = n / d;
    let m = n % d;
    lemma_fundamental_div_mod(n, d);
    lemma_mod_division_less_than_divisor(n, d);
    assert(n == d * q + m);
    assert(0 <= m < d);
    assert(2 * (q * b) == 2 * a + b - m) by (nonlinear_arith)
        requires
            n == d * q + m,
            n == 2 * a + b,
            d == 2 * b,
    ;
    assert(q >= 0) by (nonlinear_arith)
        requires
            2 * (q * b) == 2 * a + b - m,
            0 <= a,
            0 < b,
            m < 2 * b,
    ;
    assert(q <= a) by (nonlinear_arith)
        requires
            2 * (q * b) == 2 * a + b - m,
            0 <= a,
            0 < b,
            0 <= m,
    ;
}

/// `round_div_away(a, b)` rounds `a / b` to the nearest integer with ties
/// away from zero: its magnitude never exceeds `a`'s, and scaling it back
/// by `b` lands within half of `b` of `a`.
pub proof fn lemma_round_div_away_props(a: int, b: int)
    requires
        0 < b,
    ensures
        abs(round_div_away(a, b)) <= abs(a),
        2 * abs(round_div_away(a, b) * b - a) <= b,
        a >= 0 ==> round_div_away(a, b) >= 0,
        a <= 0 ==> round_div_away(a, b) <= 0,
{
    if a >= 0 {
        lemma_round_div_nonneg_props(a, b);
    } else {
        lemma_round_div_nonneg_props(-a, b);
        let q = round_div_nonneg(-a, b);
        assert((-q) * b - a == -(q * b - (-a))) by (nonlinear_arith);
    }
}

/// Rounding division of a nonnegative value, computed without overflow
/// in 128-bit arithmetic.
pub fn round_div_unsigned(a: u64, b: u32) -> (r: u64)
    requires
        b > 0,
    ensures
        r as int == round_div_nonneg(a as int, b as int),
        r <= a,
{
    proof {
        lemma_round_div_nonneg_props(a as int, b as int);
    }
    let n: u128 = 2 * (a as u128) + (b as u128);
    let q: u128 = n / (2 * (b as u128));
    q as u64
}

/// Rounding division with ties away from zero, on a signed value.
pub fn round_div_signed(a: i64, b: u32) -> (r: i64)
    requires
        b > 0,
    ensures
        r as int == round_div_away(a as int, b as int),
{
    proof {
        lemma_round_div_away_props(a as int, b as int);
    }
    if a >= 0 {
        let q = round_div_unsigned(a as u64, b);
        q as i64
    } else {
        let mag: u64 = (-(a as i128)) as u64;
        let q = round_div_unsigned(mag, b);
        (-(q as i128)) as i64
    }
}

/// The logical value of physical coordinate `p` under scale `s`.
pub open spec fn spec_normalize_coord(p: int, s: Scale) -> int
    recommends
        s.valid(),
{
    round_div_away(p * s.den, s.num as int)
}

/// Bounds of the product of a physical coordinate and a scale denominator:
/// it always fits in a signed 64-bit word.
pub proof fn lemma_coord_product_bounds(p: int, den: int)
    requires
        -0x8000_0000 <= p <= 0x7fff_ffff,
        1 <= den <= 0xffff_ffff,
    ensures
        -0x8000_0000_0000_0000 <= p * den <= 0x7fff_ffff_ffff_ffff,
{
    assert(-0x8000_0000_0000_0000 <= p * den <= 0x7fff_ffff_ffff_ffff) by (nonlinear_arith)
        requires
            -0x8000_0000 <= p <= 0x7fff_ffff,
            1 <= den <= 0xffff_ffff,
    ;
}

/// Bounds of the product of a physical extent and a scale denominator:
/// it always fits in an unsigned 64-bit word.
pub proof fn lemma_extent_product_bounds(e: int, den: int)
    requires
        0 <= e <= 0xffff_ffff,
        1 <= den <= 0xffff_ffff,
    ensures
        0 <= e * den <= 0xffff_ffff_ffff_ffff,
{
    assert(0 <= e * den <= 0xffff_ffff_ffff_ffff) by (nonlinear_arith)
        requires
            0 <= e <= 0xffff_ffff,
            1 <= den <= 0xffff_ffff,
    ;
}

/// Converts one physical coordinate to logical units: divides by the
/// scale factor and rounds to the nearest integer, ties away from zero.
pub fn normalize_coord(p: i32, s: &Scale) -> (r: i64)
    requires
        s.valid(),
    ensures
        r as int == spec_normalize_coord(p as int, *s),
{
    proof {
        lemma_coord_product_bounds(p as int, s.den as int);
        lemma_round_div_away_props(p as int * s.den as int, s.num as int);
    }
    let a: i64 = (p as i64) * (s.den as i64);
    round_div_signed(a, s.num)
}

/// Converts one physical extent (width or height) to logical units.
pub fn normalize_extent(e: u32, s: &Scale) -> (r: u64)
    requires
        s.valid(),
    ensures
        r as int == spec_normalize_coord(e as int, *s),
        r as int == round_div_nonneg(e as int * s.den as int, s.num as int),
{
    proof {
        lemma_extent_product_bounds(e as int, s.den as int);
    }
    let a: u64 = (e as u64) * (s.den as u64);
    round_div_unsigned(a, s.num)
}

/// The scale factor to use for a window-relative query: the one the
/// window reported when its scale query answered, or the identity when
/// it failed, degrading to treating physical values as logical.
pub fn scale_or_identity(s: Option<Scale>) -> (r: Scale)
    requires
        s matches Some(v) ==> v.valid(),
    ensures
        s matches Some(v) ==> r == v,
        s is None ==> r == (Scale { num: 1u32, den: 1u32 }),
        r.valid(),
{
    match s {
        Some(v) => v,
        None => Scale::one(),
    }
}

/// Converts a physical point to a logical [`PointerCoordinate`].
pub fn normalize_point(x: i32, y: i32, s: &Scale) -> (r: PointerCoordinate)
    requires
        s.valid(),
    ensures
        r.x as int == spec_normalize_coord(x as int, *s),
        r.y as int == spec_normalize_coord(y as int, *s),
{
    PointerCoordinate { x: normalize_coord(x, s), y: normalize_coord(y, s) }
}

/// Round trip of normalization: multiplying the logical value back by the
/// scale factor `num / den` returns to within half a logical unit of the
/// physical value, on every axis.  With `n` the normalized value, the
/// difference `n * (num / den) - p` has magnitude at most
/// `(num / den) / 2`; the statement below is that inequality with the
/// denominators cleared.
pub proof fn lemma_normalize_round_trip(p: int, s: Scale)
    requires
        s.valid(),
    ensures
        2 * abs(spec_normalize_coord(p, s) * s.num - p * s.den) <= s.num,
{
    lemma_round_div_away_props(p * s.den, s.num as int);
}

} // verus!
