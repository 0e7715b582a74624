//! The rules every division variant obeys, proved once and for all.
//!
//! The contracts in [`crate::div`] already carry these rules per
//! function; the lemmas here state them across functions and call
//! shapes, with `i64` standing for the signed primitives and `u64` for
//! the unsigned ones, so a reader can see each rule in one place.

use vstd::prelude::*;
use crate::arith::lemma_trunc_quot_overflow_exact;
use crate::arith::lemma_trunc_quot_unsigned;
use crate::arith::trunc_quot;
use crate::div::OptionCheckedDiv;
use crate::div::OptionDiv;
use crate::div::OptionDivAssign;
use crate::div::OptionOverflowingDiv;
use crate::div::OptionWrappingDiv;

verus! {

/// Absence dominates: a "no value" operand makes every call shape of
/// every variant absent (a no-op, for the assignment), whatever the
/// concrete values would have produced. Together with each operation's
/// contract — `absent` forces `None`, `unchanged` forces the left-hand
/// side to keep its value — this pins the result of every absent call.
pub proof fn lemma_absence_dominance(a: i64, b: i64, opt_a: Option<i64>, opt_b: Option<i64>)
    ensures
        opt_b is None ==> <i64 as OptionDiv<Option<i64>, i64>>::absent(a, opt_b),
        opt_b is None ==> <i64 as OptionDiv<&Option<i64>, i64>>::absent(a, &opt_b),
        opt_a is None ==> <Option<i64> as OptionDiv<i64, i64>>::absent(opt_a, b),
        opt_a is None || opt_b is None ==> <Option<i64> as OptionDiv<Option<i64>, i64>>::absent(
            opt_a,
            opt_b,
        ),
        opt_a is None || opt_b is None ==> <Option<i64> as OptionDiv<&Option<i64>, i64>>::absent(
            opt_a,
            &opt_b,
        ),
        opt_b is None ==> <i64 as OptionDivAssign<Option<i64>, i64>>::unchanged(a, opt_b),
        opt_b is None ==> <i64 as OptionDivAssign<&Option<i64>, i64>>::unchanged(a, &opt_b),
        opt_a is None ==> <Option<i64> as OptionDivAssign<i64, i64>>::unchanged(opt_a, b),
        opt_a is None || opt_b is None ==> <Option<i64> as OptionDivAssign<
            Option<i64>,
            i64,
        >>::unchanged(opt_a, opt_b),
        opt_a is None || opt_b is None ==> <Option<i64> as OptionDivAssign<
            &Option<i64>,
            i64,
        >>::unchanged(opt_a, &opt_b),
        opt_b is None ==> <i64 as OptionCheckedDiv<Option<i64>, i64>>::absent(a, opt_b),
        opt_b is None ==> <i64 as OptionCheckedDiv<&Option<i64>, i64>>::absent(a, &opt_b),
        opt_a is None ==> <Option<i64> as OptionCheckedDiv<i64, i64>>::absent(opt_a, b),
        opt_a is None || opt_b is None ==> <Option<i64> as OptionCheckedDiv<
            Option<i64>,
            i64,
        >>::absent(opt_a, opt_b),
        opt_a is None || opt_b is None ==> <Option<i64> as OptionCheckedDiv<
            &Option<i64>,
            i64,
        >>::absent(opt_a, &opt_b),
        opt_b is None ==> <i64 as OptionOverflowingDiv<Option<i64>, i64>>::absent(a, opt_b),
        opt_b is None ==> <i64 as OptionOverflowingDiv<&Option<i64>, i64>>::absent(a, &opt_b),
        opt_a is None ==> <Option<i64> as OptionOverflowingDiv<i64, i64>>::absent(opt_a, b),
        opt_a is None || opt_b is None ==> <Option<i64> as OptionOverflowingDiv<
            Option<i64>,
            i64,
        >>::absent(opt_a, opt_b),
        opt_a is None || opt_b is None ==> <Option<i64> as OptionOverflowingDiv<
            &Option<i64>,
            i64,
        >>::absent(opt_a, &opt_b),
        opt_b is None ==> <i64 as OptionWrappingDiv<Option<i64>, i64>>::absent(a, opt_b),
        opt_b is None ==> <i64 as OptionWrappingDiv<&Option<i64>, i64>>::absent(a, &opt_b),
        opt_a is None ==> <Option<i64> as OptionWrappingDiv<i64, i64>>::absent(opt_a, b),
        opt_a is None || opt_b is None ==> <Option<i64> as OptionWrappingDiv<
            Option<i64>,
            i64,
        >>::absent(opt_a, opt_b),
        opt_a is None || opt_b is None ==> <Option<i64> as OptionWrappingDiv<
            &Option<i64>,
            i64,
        >>::absent(opt_a, &opt_b),
{
}

/// The plain variant agrees with the base operation: on two present
/// operands whose quotient is defined and representable, every call
/// shape is defined and returns exactly the truncating quotient of the
/// payloads.
pub proof fn lemma_agreement_with_base(a: i64, b: i64)
    requires
        b != 0,
        !(a == i64::MIN && b == -1),
    ensures
        <i64 as OptionDiv<i64, i64>>::defined(a, b),
        <i64 as OptionDiv<i64, i64>>::quotient(a, b) == trunc_quot(a as int, b as int) as i64,
        <i64 as OptionDiv<Option<i64>, i64>>::defined(a, Some(b)),
        <i64 as OptionDiv<Option<i64>, i64>>::quotient(a, Some(b)) == trunc_quot(
            a as int,
            b as int,
        ) as i64,
        <Option<i64> as OptionDiv<i64, i64>>::defined(Some(a), b),
        <Option<i64> as OptionDiv<i64, i64>>::quotient(Some(a), b) == trunc_quot(
            a as int,
            b as int,
        ) as i64,
        <Option<i64> as OptionDiv<Option<i64>, i64>>::defined(Some(a), Some(b)),
        <Option<i64> as OptionDiv<Option<i64>, i64>>::quotient(Some(a), Some(b)) == trunc_quot(
            a as int,
            b as int,
        ) as i64,
{
}

/// The overflowing and wrapping variants agree on the value they
/// return, and the overflowing flag is set exactly when the exact
/// quotient falls outside the representable range.
pub proof fn lemma_overflowing_wrapping_agree(a: i64, b: i64)
    requires
        b != 0,
    ensures
        <i64 as OptionOverflowingDiv<i64, i64>>::quotient(a, b) == <i64 as OptionWrappingDiv<
            i64,
            i64,
        >>::quotient(a, b),
        <i64 as OptionOverflowingDiv<i64, i64>>::overflows(a, b) <==> !(i64::MIN <= trunc_quot(
            a as int,
            b as int,
        ) <= i64::MAX),
{
    lemma_trunc_quot_overflow_exact(a as int, b as int, i64::MIN as int, i64::MAX as int);
}

/// On an unsigned payload a division can never overflow: the
/// overflowing and wrapping variants agree, the flag is always false,
/// and the quotient is always representable.
pub proof fn lemma_overflowing_wrapping_agree_unsigned(a: u64, b: u64)
    requires
        b != 0,
    ensures
        <u64 as OptionOverflowingDiv<u64, u64>>::quotient(a, b) == <u64 as OptionWrappingDiv<
            u64,
            u64,
        >>::quotient(a, b),
        !<u64 as OptionOverflowingDiv<u64, u64>>::overflows(a, b),
        0 <= trunc_quot(a as int, b as int) <= u64::MAX,
{
    lemma_trunc_quot_unsigned(a as int, b as int, u64::MAX as int);
}

/// Passing the right-hand optional by reference is equivalent to
/// passing it by value: for every variant and every left-hand shape,
/// the two implementations agree on absence, on definedness and on the
/// result. The referenced optional itself is read through a shared
/// borrow, so the original binding cannot change.
pub proof fn lemma_reference_value_equivalence(a: i64, opt_a: Option<i64>, opt_b: Option<i64>)
    ensures
        <i64 as OptionDiv<&Option<i64>, i64>>::absent(a, &opt_b) == <i64 as OptionDiv<
            Option<i64>,
            i64,
        >>::absent(a, opt_b),
        <i64 as OptionDiv<&Option<i64>, i64>>::defined(a, &opt_b) == <i64 as OptionDiv<
            Option<i64>,
            i64,
        >>::defined(a, opt_b),
        <i64 as OptionDiv<&Option<i64>, i64>>::quotient(a, &opt_b) == <i64 as OptionDiv<
            Option<i64>,
            i64,
        >>::quotient(a, opt_b),
        <Option<i64> as OptionDiv<&Option<i64>, i64>>::absent(opt_a, &opt_b) == <Option<
            i64,
        > as OptionDiv<Option<i64>, i64>>::absent(opt_a, opt_b),
        <Option<i64> as OptionDiv<&Option<i64>, i64>>::defined(opt_a, &opt_b) == <Option<
            i64,
        > as OptionDiv<Option<i64>, i64>>::defined(opt_a, opt_b),
        <Option<i64> as OptionDiv<&Option<i64>, i64>>::quotient(opt_a, &opt_b) == <Option<
            i64,
        > as OptionDiv<Option<i64>, i64>>::quotient(opt_a, opt_b),
        <i64 as OptionDivAssign<&Option<i64>, i64>>::unchanged(a, &opt_b) == <i64 as OptionDivAssign<
            Option<i64>,
            i64,
        >>::unchanged(a, opt_b),
        <i64 as OptionDivAssign<&Option<i64>, i64>>::defined(a, &opt_b) == <i64 as OptionDivAssign<
            Option<i64>,
            i64,
        >>::defined(a, opt_b),
        <i64 as OptionDivAssign<&Option<i64>, i64>>::updated(a, &opt_b) == <i64 as OptionDivAssign<
            Option<i64>,
            i64,
        >>::updated(a, opt_b),
        <Option<i64> as OptionDivAssign<&Option<i64>, i64>>::unchanged(opt_a, &opt_b) == <Option<
            i64,
        > as OptionDivAssign<Option<i64>, i64>>::unchanged(opt_a, opt_b),
        <Option<i64> as OptionDivAssign<&Option<i64>, i64>>::defined(opt_a, &opt_b) == <Option<
            i64,
        > as OptionDivAssign<Option<i64>, i64>>::defined(opt_a, opt_b),
        <Option<i64> as OptionDivAssign<&Option<i64>, i64>>::updated(opt_a, &opt_b) == <Option<
            i64,
        > as OptionDivAssign<Option<i64>, i64>>::updated(opt_a, opt_b),
        <i64 as OptionCheckedDiv<&Option<i64>, i64>>::absent(a, &opt_b) == <i64 as OptionCheckedDiv<
            Option<i64>,
            i64,
        >>::absent(a, opt_b),
        <i64 as OptionCheckedDiv<&Option<i64>, i64>>::divisor_is_zero(a, &opt_b)
            == <i64 as OptionCheckedDiv<Option<i64>, i64>>::divisor_is_zero(a, opt_b),
        <i64 as OptionCheckedDiv<&Option<i64>, i64>>::overflows(a, &opt_b)
            == <i64 as OptionCheckedDiv<Option<i64>, i64>>::overflows(a, opt_b),
        <i64 as OptionCheckedDiv<&Option<i64>, i64>>::quotient(a, &opt_b)
            == <i64 as OptionCheckedDiv<Option<i64>, i64>>::quotient(a, opt_b),
        <Option<i64> as OptionCheckedDiv<&Option<i64>, i64>>::absent(opt_a, &opt_b) == <Option<
            i64,
        > as OptionCheckedDiv<Option<i64>, i64>>::absent(opt_a, opt_b),
        <Option<i64> as OptionCheckedDiv<&Option<i64>, i64>>::divisor_is_zero(opt_a, &opt_b)
            == <Option<i64> as OptionCheckedDiv<Option<i64>, i64>>::divisor_is_zero(opt_a, opt_b),
        <Option<i64> as OptionCheckedDiv<&Option<i64>, i64>>::overflows(opt_a, &opt_b) == <Option<
            i64,
        > as OptionCheckedDiv<Option<i64>, i64>>::overflows(opt_a, opt_b),
        <Option<i64> as OptionCheckedDiv<&Option<i64>, i64>>::quotient(opt_a, &opt_b) == <Option<
            i64,
        > as OptionCheckedDiv<Option<i64>, i64>>::quotient(opt_a, opt_b),
        <i64 as OptionOverflowingDiv<&Option<i64>, i64>>::absent(a, &opt_b)
            == <i64 as OptionOverflowingDiv<Option<i64>, i64>>::absent(a, opt_b),
        <i64 as OptionOverflowingDiv<&Option<i64>, i64>>::defined(a, &opt_b)
            == <i64 as OptionOverflowingDiv<Option<i64>, i64>>::defined(a, opt_b),
        <i64 as OptionOverflowingDiv<&Option<i64>, i64>>::overflows(a, &opt_b)
            == <i64 as OptionOverflowingDiv<Option<i64>, i64>>::overflows(a, opt_b),
        <i64 as OptionOverflowingDiv<&Option<i64>, i64>>::quotient(a, &opt_b)
            == <i64 as OptionOverflowingDiv<Option<i64>, i64>>::quotient(a, opt_b),
        <Option<i64> as OptionOverflowingDiv<&Option<i64>, i64>>::absent(opt_a, &opt_b) == <Option<
            i64,
        > as OptionOverflowingDiv<Option<i64>, i64>>::absent(opt_a, opt_b),
        <Option<i64> as OptionOverflowingDiv<&Option<i64>, i64>>::defined(opt_a, &opt_b) == <Option<
            i64,
        > as OptionOverflowingDiv<Option<i64>, i64>>::defined(opt_a, opt_b),
        <Option<i64> as OptionOverflowingDiv<&Option<i64>, i64>>::overflows(opt_a, &opt_b)
            == <Option<i64> as OptionOverflowingDiv<Option<i64>, i64>>::overflows(opt_a, opt_b),
        <Option<i64> as OptionOverflowingDiv<&Option<i64>, i64>>::quotient(opt_a, &opt_b)
            == <Option<i64> as OptionOverflowingDiv<Option<i64>, i64>>::quotient(opt_a, opt_b),
        <i64 as OptionWrappingDiv<&Option<i64>, i64>>::absent(a, &opt_b)
            == <i64 as OptionWrappingDiv<Option<i64>, i64>>::absent(a, opt_b),
        <i64 as OptionWrappingDiv<&Option<i64>, i64>>::defined(a, &opt_b)
            == <i64 as OptionWrappingDiv<Option<i64>, i64>>::defined(a, opt_b),
        <i64 as OptionWrappingDiv<&Option<i64>, i64>>::quotient(a, &opt_b)
            == <i64 as OptionWrappingDiv<Option<i64>, i64>>::quotient(a, opt_b),
        <Option<i64> as OptionWrappingDiv<&Option<i64>, i64>>::absent(opt_a, &opt_b) == <Option<
            i64,
        > as OptionWrappingDiv<Option<i64>, i64>>::absent(opt_a, opt_b),
        <Option<i64> as OptionWrappingDiv<&Option<i64>, i64>>::defined(opt_a, &opt_b) == <Option<
            i64,
        > as OptionWrappingDiv<Option<i64>, i64>>::defined(opt_a, opt_b),
        <Option<i64> as OptionWrappingDiv<&Option<i64>, i64>>::quotient(opt_a, &opt_b) == <Option<
            i64,
        > as OptionWrappingDiv<Option<i64>, i64>>::quotient(opt_a, opt_b),
{
}

} // verus!
