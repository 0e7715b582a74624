//! A sample payload type built on the optional operators.
//!
//! [`MyInt`] is a newtype over `i64` that opts into every division
//! variant, both against itself and against a bare `i64` divisor. It
//! shows what a user-defined numeric type has to supply — the base
//! shape of each trait, delegating to its payload — to gain the full
//! optional coverage from the blanket implementations.

use vstd::prelude::*;
use crate::Error;
use crate::OptionOperations;
use crate::div::OptionCheckedDiv;
use crate::div::OptionDiv;
use crate::div::OptionDivAssign;
use crate::div::OptionOverflowingDiv;
use crate::div::OptionWrappingDiv;

verus! {

/// A user-defined numeric wrapper around `i64`.
///
/// Division behaves exactly as on the payload: the one unrepresentable
/// quotient is `MyInt(i64::MIN)` divided by negative one.
#[derive(Clone, Copy, Debug, PartialEq, Eq, Structural, PartialOrd)]
pub struct MyInt(pub i64);

impl OptionOperations for MyInt {

}

impl OptionDiv<MyInt, MyInt> for MyInt {
    type Output = MyInt;

    open spec fn absent(self, rhs: MyInt) -> bool {
        false
    }

    open spec fn defined(self, rhs: MyInt) -> bool {
        <i64 as OptionDiv<i64, i64>>::defined(self.0, rhs.0)
    }

    open spec fn quotient(self, rhs: MyInt) -> MyInt {
        MyInt(<i64 as OptionDiv<i64, i64>>::quotient(self.0, rhs.0))
    }

    fn opt_div(self, rhs: MyInt) -> (r: Option<MyInt>) {
        Some(MyInt(<i64 as OptionDiv<i64, i64>>::opt_div(self.0, rhs.0).unwrap()))
    }
}

impl OptionDivAssign<MyInt, MyInt> for MyInt {
    open spec fn unchanged(self, rhs: MyInt) -> bool {
        false
    }

    open spec fn defined(self, rhs: MyInt) -> bool {
        <i64 as OptionDivAssign<i64, i64>>::defined(self.0, rhs.0)
    }

    open spec fn updated(self, rhs: MyInt) -> MyInt {
        MyInt(<i64 as OptionDivAssign<i64, i64>>::updated(self.0, rhs.0))
    }

    fn opt_div_assign(&mut self, rhs: MyInt) {
        <i64 as OptionDivAssign<i64, i64>>::opt_div_assign(&mut self.0, rhs.0)
    }
}

impl OptionCheckedDiv<MyInt, MyInt> for MyInt {
    type Output = MyInt;

    open spec fn absent(self, rhs: MyInt) -> bool {
        false
    }

    open spec fn divisor_is_zero(self, rhs: MyInt) -> bool {
        <i64 as OptionCheckedDiv<i64, i64>>::divisor_is_zero(self.0, rhs.0)
    }

    open spec fn overflows(self, rhs: MyInt) -> bool {
        <i64 as OptionCheckedDiv<i64, i64>>::overflows(self.0, rhs.0)
    }

    open spec fn quotient(self, rhs: MyInt) -> MyInt {
        MyInt(<i64 as OptionCheckedDiv<i64, i64>>::quotient(self.0, rhs.0))
    }

    fn opt_checked_div(self, rhs: MyInt) -> (r: Result<Option<MyInt>, Error>) {
        match <i64 as OptionCheckedDiv<i64, i64>>::opt_checked_div(self.0, rhs.0) {
            Ok(Some(quotient)) => Ok(Some(MyInt(quotient))),
            Ok(None) => Ok(None),
            Err(reason) => Err(reason),
        }
    }
}

impl OptionOverflowingDiv<MyInt, MyInt> for MyInt {
    type Output = MyInt;

    open spec fn absent(self, rhs: MyInt) -> bool {
        false
    }

    open spec fn defined(self, rhs: MyInt) -> bool {
        <i64 as OptionOverflowingDiv<i64, i64>>::defined(self.0, rhs.0)
    }

    open spec fn overflows(self, rhs: MyInt) -> bool {
        <i64 as OptionOverflowingDiv<i64, i64>>::overflows(self.0, rhs.0)
    }

    open spec fn quotient(self, rhs: MyInt) -> MyInt {
        MyInt(<i64 as OptionOverflowingDiv<i64, i64>>::quotient(self.0, rhs.0))
    }

    fn opt_overflowing_div(self, rhs: MyInt) -> (r: Option<(MyInt, bool)>) {
        let (quotient, overflowed) = <i64 as OptionOverflowingDiv<i64, i64>>::opt_overflowing_div(
            self.0,
            rhs.0,
        ).unwrap();
        Some((MyInt(quotient), overflowed))
    }
}

impl OptionWrappingDiv<MyInt, MyInt> for MyInt {
    type Output = MyInt;

    open spec fn absent(self, rhs: MyInt) -> bool {
        false
    }

    open spec fn defined(self, rhs: MyInt) -> bool {
        <i64 as OptionWrappingDiv<i64, i64>>::defined(self.0, rhs.0)
    }

    open spec fn quotient(self, rhs: MyInt) -> MyInt {
        MyInt(<i64 as OptionWrappingDiv<i64, i64>>::quotient(self.0, rhs.0))
    }

    fn opt_wrapping_div(self, rhs: MyInt) -> (r: Option<MyInt>) {
        Some(MyInt(<i64 as OptionWrappingDiv<i64, i64>>::opt_wrapping_div(self.0, rhs.0).unwrap()))
    }
}

impl OptionDiv<i64, i64> for MyInt {
    type Output = MyInt;

    open spec fn absent(self, rhs: i64) -> bool {
        false
    }

    open spec fn defined(self, rhs: i64) -> bool {
        <i64 as OptionDiv<i64, i64>>::defined(self.0, rhs)
    }

    open spec fn quotient(self, rhs: i64) -> MyInt {
        MyInt(<i64 as OptionDiv<i64, i64>>::quotient(self.0, rhs))
    }

    fn opt_div(self, rhs: i64) -> (r: Option<MyInt>) {
        Some(MyInt(<i64 as OptionDiv<i64, i64>>::opt_div(self.0, rhs).unwrap()))
    }
}

impl OptionDivAssign<i64, i64> for MyInt {
    open spec fn unchanged(self, rhs: i64) -> bool {
        false
    }

    open spec fn defined(self, rhs: i64) -> bool {
        <i64 as OptionDivAssign<i64, i64>>::defined(self.0, rhs)
    }

    open spec fn updated(self, rhs: i64) -> MyInt {
        MyInt(<i64 as OptionDivAssign<i64, i64>>::updated(self.0, rhs))
    }

    fn opt_div_assign(&mut self, rhs: i64) {
        <i64 as OptionDivAssign<i64, i64>>::opt_div_assign(&mut self.0, rhs)
    }
}

impl OptionCheckedDiv<i64, i64> for MyInt {
    type Output = MyInt;

    open spec fn absent(self, rhs: i64) -> bool {
        false
    }

    open spec fn divisor_is_zero(self, rhs: i64) -> bool {
        <i64 as OptionCheckedDiv<i64, i64>>::divisor_is_zero(self.0, rhs)
    }

    open spec fn overflows(self, rhs: i64) -> bool {
        <i64 as OptionCheckedDiv<i64, i64>>::overflows(self.0, rhs)
    }

    open spec fn quotient(self, rhs: i64) -> MyInt {
        MyInt(<i64 as OptionCheckedDiv<i64, i64>>::quotient(self.0, rhs))
    }

    fn opt_checked_div(self, rhs: i64) -> (r: Result<Option<MyInt>, Error>) {
        match <i64 as OptionCheckedDiv<i64, i64>>::opt_checked_div(self.0, rhs) {
            Ok(Some(quotient)) => Ok(Some(MyInt(quotient))),
            Ok(None) => Ok(None),
            Err(reason) => Err(reason),
        }
    }
}

impl OptionOverflowingDiv<i64, i64> for MyInt {
    type Output = MyInt;

    open spec fn absent(self, rhs: i64) -> bool {
        false
    }

    open spec fn defined(self, rhs: i64) -> bool {
        <i64 as OptionOverflowingDiv<i64, i64>>::defined(self.0, rhs)
    }

    open spec fn overflows(self, rhs: i64) -> bool {
        <i64 as OptionOverflowingDiv<i64, i64>>::overflows(self.0, rhs)
    }

    open spec fn quotient(self, rhs: i64) -> MyInt {
        MyInt(<i64 as OptionOverflowingDiv<i64, i64>>::quotient(self.0, rhs))
    }

    fn opt_overflowing_div(self, rhs: i64) -> (r: Option<(MyInt, bool)>) {
        let (quotient, overflowed) = <i64 as OptionOverflowingDiv<i64, i64>>::opt_overflowing_div(
            self.0,
            rhs,
        ).unwrap();
        Some((MyInt(quotient), overflowed))
    }
}

impl OptionWrappingDiv<i64, i64> for MyInt {
    type Output = MyInt;

    open spec fn absent(self, rhs: i64) -> bool {
        false
    }

    open spec fn defined(self, rhs: i64) -> bool {
        <i64 as OptionWrappingDiv<i64, i64>>::defined(self.0, rhs)
    }

    open spec fn quotient(self, rhs: i64) -> MyInt {
        MyInt(<i64 as OptionWrappingDiv<i64, i64>>::quotient(self.0, rhs))
    }

    fn opt_wrapping_div(self, rhs: i64) -> (r: Option<MyInt>) {
        Some(MyInt(<i64 as OptionWrappingDiv<i64, i64>>::opt_wrapping_div(self.0, rhs).unwrap()))
    }
}

} // verus!
