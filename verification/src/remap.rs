//! Linear remapping of a value from one integer interval onto another.
//!
//! Both directions of the position mapper use this single formula, with the
//! inverted direction reflecting the input inside its interval first, so the
//! two sides cannot drift apart.

use vstd::prelude::*;
use vstd::arithmetic::div_mod::lemma_div_is_ordered;
use vstd::arithmetic::div_mod::lemma_div_pos_is_pos;
use vstd::arithmetic::div_mod::lemma_fundamental_div_mod_converse;
use vstd::arithmetic::mul::lemma_mul_inequality;

verus! {

/// `num / den` rounded to the nearest integer, halves rounded up.
pub open spec fn round_ratio(num: int, den: int) -> int {
    (2 * num + den) / (2 * den)
}

/// `x` taken from `[in_start, in_end]` and mapped linearly onto
/// `[out_start, out_end]`, rounded to the output's integer unit.
pub open spec fn lin_remap(
    x: int,
    in_start: int,
    in_end: int,
    out_start: int,
    out_end: int,
) -> int {
    out_start + round_ratio((x - in_start) * (out_end - out_start), in_end - in_start)
}

/// The full mapper: `invert` reflects `x` inside `[in_start, in_end]`, so the
/// output grows as `x` shrinks.
pub open spec fn remap_spec(
    x: int,
    in_start: int,
    in_end: int,
    out_start: int,
    out_end: int,
    invert: bool,
) -> int {
    if invert {
        lin_remap(in_start + in_end - x, in_start, in_end, out_start, out_end)
    } else {
        lin_remap(x, in_start, in_end, out_start, out_end)
    }
}

/// Rounding a ratio keeps the order of the numerators.
pub proof fn lemma_round_ratio_monotonic(num1: int, num2: int, den: int)
    requires
        num1 <= num2,
        0 < den,
    ensures
        round_ratio(num1, den) <= round_ratio(num2, den),
{
    lemma_div_is_ordered(2 * num1 + den, 2 * num2 + den, 2 * den);
}

/// For a numerator built from a fraction of the denominator, the rounded
/// ratio stays within `[0, span]`.
pub proof fn lemma_round_ratio_bounds(dx: int, span: int, den: int)
    requires
        0 <= dx <= den,
        0 < den,
        0 <= span,
    ensures
        0 <= round_ratio(dx * span, den) <= span,
{
    lemma_mul_inequality(0, dx, span);
    lemma_div_pos_is_pos(2 * (dx * span) + den, 2 * den);
    lemma_mul_inequality(dx, den, span);
    assert(dx * span <= den * span);
    lemma_div_is_ordered(2 * (dx * span) + den, 2 * (den * span) + den, 2 * den);
    assert(2 * (den * span) + den == span * (2 * den) + den) by (nonlinear_arith);
    lemma_fundamental_div_mod_converse(span * (2 * den) + den, 2 * den, span, den);
    assert((2 * (den * span) + den) / (2 * den) == span);
}

/// The linear remap is monotone in its input.
pub proof fn lemma_lin_remap_monotonic(
    x1: int,
    x2: int,
    in_start: int,
    in_end: int,
    out_start: int,
    out_end: int,
)
    requires
        x1 <= x2,
        in_start < in_end,
        out_start <= out_end,
    ensures
        lin_remap(x1, in_start, in_end, out_start, out_end) <= lin_remap(
            x2,
            in_start,
            in_end,
            out_start,
            out_end,
        ),
{
    lemma_mul_inequality(x1 - in_start, x2 - in_start, out_end - out_start);
    lemma_round_ratio_monotonic(
        (x1 - in_start) * (out_end - out_start),
        (x2 - in_start) * (out_end - out_start),
        in_end - in_start,
    );
}

/// The linear remap of a value inside the input interval lands inside the
/// output interval.
pub proof fn lemma_lin_remap_bounds(
    x: int,
    in_start: int,
    in_end: int,
    out_start: int,
    out_end: int,
)
    requires
        in_start <= x <= in_end,
        in_start < in_end,
        out_start <= out_end,
    ensures
        out_start <= lin_remap(x, in_start, in_end, out_start, out_end) <= out_end,
{
    lemma_round_ratio_bounds(x - in_start, out_end - out_start, in_end - in_start);
}

/// Executable remap. With `invert` the output grows toward `out_end` as `x`
/// falls toward `in_start`; without it the map is order-preserving.
pub fn map_range(
    x: u32,
    in_start: u32,
    in_end: u32,
    out_start: u32,
    out_end: u32,
    invert: bool,
) -> (r: u32)
    requires
        in_start <= x <= in_end,
        in_start < in_end,
        out_start <= out_end,
    ensures
        r == remap_spec(x as int, in_start as int, in_end as int, out_start as int, out_end as int, invert),
        out_start <= r <= out_end,
{
    let dx: u128 = if invert {
        (in_end - x) as u128
    } else {
        (x - in_start) as u128
    };
    let span: u128 = (out_end - out_start) as u128;
    let den: u128 = (in_end - in_start) as u128;
    proof {
        lemma_round_ratio_bounds(dx as int, span as int, den as int);
        assert(dx * span <= den * span) by (nonlinear_arith)
            requires
                0 <= dx <= den,
                0 <= span,
        ;
        assert(den * span < 0x1_0000_0000 * 0x1_0000_0000) by (nonlinear_arith)
            requires
                0 <= den < 0x1_0000_0000,
                0 <= span < 0x1_0000_0000,
        ;
    }
    let rounded: u128 = (2 * (dx * span) + den) / (2 * den);
    out_start + (rounded as u32)
}

} // verus!
