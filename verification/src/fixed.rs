//! Fixed-point helpers shared by the generator and the statistics.

use vstd::prelude::*;
use vstd::arithmetic::div_mod::{lemma_div_is_ordered, lemma_fundamental_div_mod, lemma_mod_bound};

verus! {

/// Thousandths in one whole unit of a reading.
pub const MILLI: i64 = 1000;

/// Milliseconds in one hour.
pub const MILLIS_PER_HOUR: i64 = 3_600_000;

/// `x` brought into the range of `i64`: values beyond either end stick to it.
pub open spec fn clamp_i64(x: int) -> int {
    if x < i64::MIN {
        i64::MIN as int
    } else if x > i64::MAX {
        i64::MAX as int
    } else {
        x
    }
}

/// Narrows a wide intermediate to `i64`, saturating at the ends.
pub fn saturate(x: i128) -> (r: i64)
    ensures
        r == clamp_i64(x as int),
{
    if x < i64::MIN as i128 {
        i64::MIN
    } else if x > i64::MAX as i128 {
        i64::MAX
    } else {
        x as i64
    }
}

/// Sum of two readings, saturating at the ends of `i64`.
pub fn saturating_sum(a: i64, b: i64) -> (r: i64)
    ensures
        r == clamp_i64(a + b),
{
    saturate(a as i128 + b as i128)
}

/// The part `draw / 2^32` of `span`, rounded down: a uniform draw over
/// `u32` becomes a uniform value in `[0, span)`.
pub open spec fn fraction(draw: u32, span: int) -> int {
    (draw * span) / 0x1_0000_0000
}

/// `fraction` moved down by half the span: a uniform draw becomes a uniform
/// value around zero.
pub open spec fn centred(draw: u32, span: int) -> int {
    fraction(draw, span) - span / 2
}

/// A fraction of a positive span is at least zero and less than the span.
pub proof fn lemma_fraction_range(draw: u32, span: int)
    requires
        span > 0,
    ensures
        0 <= fraction(draw, span) < span,
{
    let whole = 0x1_0000_0000int;
    assert(0 <= draw * span < whole * span) by (nonlinear_arith)
        requires
            0 <= draw < whole,
            span > 0,
    ;
    lemma_div_is_ordered(0, draw * span, whole);
    lemma_fundamental_div_mod(draw * span, whole);
    lemma_mod_bound(draw * span, whole);
    if fraction(draw, span) >= span {
        assert(whole * fraction(draw, span) >= whole * span) by (nonlinear_arith)
            requires
                fraction(draw, span) >= span,
                whole > 0,
        ;
    }
}

/// `fraction(draw, span)` for a span given in thousandths.
pub fn scale(draw: u32, span: u32) -> (r: i64)
    ensures
        r == fraction(draw, span as int),
        span > 0 ==> 0 <= r < span,
        span == 0 ==> r == 0,
{
    proof {
        if span > 0 {
            lemma_fraction_range(draw, span as int);
        }
        assert(draw * span <= 0xffff_ffff * 0xffff_ffff) by (nonlinear_arith)
            requires
                0 <= draw <= 0xffff_ffff,
                0 <= span <= 0xffff_ffff,
        ;
    }
    let product: u64 = draw as u64 * span as u64;
    (product / 0x1_0000_0000) as i64
}

/// `centred(draw, span)` for a span given in thousandths.
pub fn offset(draw: u32, span: u32) -> (r: i64)
    ensures
        r == centred(draw, span as int),
        span > 0 ==> -(span / 2) <= r < span - span / 2,
{
    scale(draw, span) - (span / 2) as i64
}

} // verus!
