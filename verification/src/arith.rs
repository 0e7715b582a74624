//! Truncating division on mathematical integers.
//!
//! Rust's integer division rounds toward zero, while `/` on `int` in
//! specifications is Euclidean. The spec functions here express the
//! truncating quotient and its wrapped variant over `int`, so every
//! contract in this crate can speak of division in the exact sense the
//! executable operators compute. The lemmas bound the quotient by the
//! representable range of a two's-complement type.

use vstd::prelude::*;
use vstd::arithmetic::div_mod::lemma_div_basics;
use vstd::arithmetic::div_mod::lemma_div_is_ordered;
use vstd::arithmetic::div_mod::lemma_div_is_ordered_by_denominator;
use vstd::arithmetic::div_mod::lemma_div_multiples_vanish;
use vstd::arithmetic::div_mod::lemma_div_nonincreasing;
use vstd::arithmetic::div_mod::lemma_div_pos_is_pos;

verus! {

/// Quotient of `x` by `d`, rounded toward zero.
///
/// On non-negative operands this coincides with Euclidean division; the
/// negative cases are folded onto it by sign.
pub open spec fn trunc_quot(x: int, d: int) -> int
    recommends
        d != 0,
{
    if x == 0 {
        0
    } else if x > 0 && d > 0 {
        x / d
    } else if x < 0 && d < 0 {
        (x * -1) / (d * -1)
    } else if x < 0 {
        ((x * -1) / d) * -1
    } else {
        (x / (d * -1)) * -1
    }
}

/// Quotient of `x` by `d` as the wrapping operators of a two's-complement
/// type with range `[min, max]` compute it: the truncating quotient when
/// it is representable, and `x` itself on the one overflowing case.
pub open spec fn wrap_quot(x: int, d: int, min: int, max: int) -> int
    recommends
        d != 0,
{
    if min <= trunc_quot(x, d) <= max {
        trunc_quot(x, d)
    } else {
        x
    }
}

/// On non-negative operands the truncating quotient is plain Euclidean
/// division, and never exceeds the dividend: an unsigned division cannot
/// overflow.
pub proof fn lemma_trunc_quot_unsigned(x: int, d: int, max: int)
    requires
        0 <= x <= max,
        d > 0,
    ensures
        trunc_quot(x, d) == x / d,
        0 <= trunc_quot(x, d) <= max,
{
    if x == 0 {
        lemma_div_basics(d);
    } else {
        lemma_div_pos_is_pos(x, d);
        lemma_div_nonincreasing(x, d);
    }
}

/// The truncating quotient of representable operands of a two's-complement
/// type is itself representable, except for `min / -1`.
pub proof fn lemma_trunc_quot_in_range(x: int, d: int, min: int, max: int)
    requires
        min == -max - 1,
        max > 0,
        min <= x <= max,
        d != 0,
        !(x == min && d == -1),
    ensures
        min <= trunc_quot(x, d) <= max,
{
    if x == 0 {
    } else if x > 0 && d > 0 {
        lemma_div_pos_is_pos(x, d);
        lemma_div_nonincreasing(x, d);
    } else if x < 0 && d < 0 {
        let p = x * -1;
        let q = d * -1;
        if q == 1 {
            lemma_div_basics(p);
        } else {
            lemma_div_pos_is_pos(p, q);
            lemma_div_is_ordered_by_denominator(p, 2, q);
            lemma_div_is_ordered(p, max + max, 2);
            lemma_div_multiples_vanish(max, 2);
        }
    } else if x < 0 {
        let p = x * -1;
        lemma_div_pos_is_pos(p, d);
        lemma_div_nonincreasing(p, d);
    } else {
        let q = d * -1;
        lemma_div_pos_is_pos(x, q);
        lemma_div_nonincreasing(x, q);
    }
}

/// For representable operands and a non-zero divisor, the truncating
/// quotient escapes the range `[min, max]` exactly on `min / -1`.
pub proof fn lemma_trunc_quot_overflow_exact(x: int, d: int, min: int, max: int)
    requires
        min == -max - 1,
        max > 0,
        min <= x <= max,
        d != 0,
    ensures
        (x == min && d == -1) <==> !(min <= trunc_quot(x, d) <= max),
{
    if x == min && d == -1 {
        lemma_div_basics(x * -1);
        assert(trunc_quot(x, d) == max + 1);
    } else {
        lemma_trunc_quot_in_range(x, d, min, max);
    }
}

} // verus!
