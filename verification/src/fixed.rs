use vstd::prelude::*;
use vstd::arithmetic::div_mod::{lemma_div_nonincreasing, lemma_div_pos_is_pos};

verus! {

/// Scale of the fixed-point coordinate representation: one world unit
/// is `SCALE` raw steps.
pub const SCALE: i64 = 65536;

/// Largest magnitude a world position coordinate may take.
pub const POS_LIMIT: i64 = 0x2000_0000_0000;

/// Largest frame delta (in fixed-point seconds) the systems accept.
pub const DELTA_MAX: i64 = 0x8000_0000;

/// Largest magnitude for a per-axis movement speed multiplier.
pub const SPEED_MAX: i64 = 0x8000_0000;

/// Largest magnitude for the orthographic projection parameters
/// (field of view and clip plane depths).
pub const ORTHO_LIMIT: i64 = 0x400_0000;

/// Largest aspect ratio a camera accepts; the smallest is 1 raw step.
pub const ASPECT_MAX: i64 = 0x1_0000_0000;

/// Largest magnitude for a normalized screen coordinate handed to
/// the unprojection.
pub const SCREEN_LIMIT: i64 = 0x4000_0000;

/// Truncating (round toward zero) division by a positive divisor,
/// matching what Rust's signed `/` computes.
pub open spec fn div_trunc(a: int, b: int) -> int
    recommends
        b > 0,
{
    if a >= 0 {
        a / b
    } else {
        -((-a) / b)
    }
}

pub open spec fn abs_int(a: int) -> int {
    if a >= 0 {
        a
    } else {
        -a
    }
}

pub open spec fn clamp_int(v: int, lo: int, hi: int) -> int
    recommends
        lo <= hi,
{
    if v < lo {
        lo
    } else if v > hi {
        hi
    } else {
        v
    }
}

/// Truncating division stays within the bounds of the dividend.
pub proof fn lemma_div_trunc_bound(a: int, b: int)
    requires
        b >= 1,
    ensures
        abs_int(div_trunc(a, b)) <= abs_int(a),
        abs_int(div_trunc(a, b)) == abs_int(a) / b,
        a >= 0 ==> 0 <= div_trunc(a, b) <= a,
        a < 0 ==> a <= div_trunc(a, b) <= 0,
{
    if a >= 0 {
        lemma_div_pos_is_pos(a, b);
        lemma_div_nonincreasing(a, b);
    } else {
        lemma_div_pos_is_pos(-a, b);
        lemma_div_nonincreasing(-a, b);
    }
}

/// The magnitude of a product is bounded by the product of the
/// factors' bounds.
pub proof fn lemma_mul_bound(a: int, b: int, ba: int, bb: int)
    requires
        abs_int(a) <= ba,
        abs_int(b) <= bb,
    ensures
        abs_int(a * b) <= ba * bb,
{
    assert(abs_int(a * b) <= ba * bb) by (nonlinear_arith)
        requires
            abs_int(a) <= ba,
            abs_int(b) <= bb,
    ;
}

/// Truncating division of a signed value by a positive divisor.
pub fn fx_div(a: i64, b: i64) -> (r: i64)
    requires
        1 <= b,
    ensures
        r == div_trunc(a as int, b as int),
{
    proof {
        lemma_div_trunc_bound(a as int, b as int);
    }
    let r = a.checked_div(b);
    match r {
        Some(v) => v,
        None => {
            proof {
                assert(false);
            }
            0
        },
    }
}

/// Fixed-point product: multiplies two scaled values and rescales,
/// truncating toward zero.
pub fn fx_mul(a: i64, b: i64) -> (r: i64)
    requires
        -0x7fff_ffff_ffff_ffff <= a as int * b as int <= 0x7fff_ffff_ffff_ffff,
    ensures
        r == div_trunc(a as int * b as int, SCALE as int),
{
    let p = a * b;
    fx_div(p, SCALE)
}

/// Clamps a value into a closed interval.
pub fn clamp(v: i64, lo: i64, hi: i64) -> (r: i64)
    requires
        lo <= hi,
    ensures
        r == clamp_int(v as int, lo as int, hi as int),
        lo <= r <= hi,
{
    if v < lo {
        lo
    } else if v > hi {
        hi
    } else {
        v
    }
}

} // verus!
