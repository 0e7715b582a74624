//! The division variants for the primitive integer types.
//!
//! Every fixed-width signed and unsigned integer primitive implements
//! the base shape of each trait in [`crate::div`]; the blanket
//! implementations there extend the coverage to `Option`s of them. The
//! bodies lean on `checked_div`, whose behaviour Verus knows exactly,
//! and the contracts restate it through [`trunc_quot`] and
//! [`wrap_quot`]: for a signed type the one unrepresentable quotient is
//! `MIN / -1`, for an unsigned type there is none.

use vstd::prelude::*;
use crate::Error;
use crate::OptionOperations;
use crate::arith::lemma_trunc_quot_in_range;
use crate::arith::lemma_trunc_quot_overflow_exact;
use crate::arith::lemma_trunc_quot_unsigned;
use crate::arith::trunc_quot;
use crate::arith::wrap_quot;
use crate::div::OptionCheckedDiv;
use crate::div::OptionDiv;
use crate::div::OptionDivAssign;
use crate::div::OptionOverflowingDiv;
use crate::div::OptionWrappingDiv;

verus! {

impl OptionOperations for i8 {

}

impl OptionDiv<i8, i8> for i8 {
    type Output = i8;

    open spec fn absent(self, rhs: i8) -> bool {
        false
    }

    open spec fn defined(self, rhs: i8) -> bool {
        rhs != 0 && !(self == i8::MIN && rhs == -1)
    }

    open spec fn quotient(self, rhs: i8) -> i8 {
        trunc_quot(self as int, rhs as int) as i8
    }

    fn opt_div(self, rhs: i8) -> (r: Option<i8>) {
        proof {
            lemma_trunc_quot_in_range(self as int, rhs as int, i8::MIN as int, i8::MAX as int);
        }
        Some(self.checked_div(rhs).unwrap())
    }
}

impl OptionDivAssign<i8, i8> for i8 {
    open spec fn unchanged(self, rhs: i8) -> bool {
        false
    }

    open spec fn defined(self, rhs: i8) -> bool {
        rhs != 0 && !(self == i8::MIN && rhs == -1)
    }

    open spec fn updated(self, rhs: i8) -> i8 {
        trunc_quot(self as int, rhs as int) as i8
    }

    fn opt_div_assign(&mut self, rhs: i8) {
        proof {
            lemma_trunc_quot_in_range(
                *old(self) as int,
                rhs as int,
                i8::MIN as int,
                i8::MAX as int,
            );
        }
        let lhs: i8 = *self;
        *self = lhs.checked_div(rhs).unwrap();
    }
}

impl OptionCheckedDiv<i8, i8> for i8 {
    type Output = i8;

    open spec fn absent(self, rhs: i8) -> bool {
        false
    }

    open spec fn divisor_is_zero(self, rhs: i8) -> bool {
        rhs == 0
    }

    open spec fn overflows(self, rhs: i8) -> bool {
        self == i8::MIN && rhs == -1
    }

    open spec fn quotient(self, rhs: i8) -> i8 {
        trunc_quot(self as int, rhs as int) as i8
    }

    fn opt_checked_div(self, rhs: i8) -> (r: Result<Option<i8>, Error>) {
        if rhs == 0 {
            return Err(Error::DivisionByZero);
        }
        proof {
            lemma_trunc_quot_overflow_exact(
                self as int,
                rhs as int,
                i8::MIN as int,
                i8::MAX as int,
            );
        }
        match self.checked_div(rhs) {
            Some(quotient) => Ok(Some(quotient)),
            None => Err(Error::Overflow),
        }
    }
}

impl OptionOverflowingDiv<i8, i8> for i8 {
    type Output = i8;

    open spec fn absent(self, rhs: i8) -> bool {
        false
    }

    open spec fn defined(self, rhs: i8) -> bool {
        rhs != 0
    }

    open spec fn overflows(self, rhs: i8) -> bool {
        self == i8::MIN && rhs == -1
    }

    open spec fn quotient(self, rhs: i8) -> i8 {
        wrap_quot(self as int, rhs as int, i8::MIN as int, i8::MAX as int) as i8
    }

    fn opt_overflowing_div(self, rhs: i8) -> (r: Option<(i8, bool)>) {
        proof {
            lemma_trunc_quot_overflow_exact(
                self as int,
                rhs as int,
                i8::MIN as int,
                i8::MAX as int,
            );
        }
        if self == i8::MIN && rhs == -1 {
            Some((self, true))
        } else {
            Some((self.checked_div(rhs).unwrap(), false))
        }
    }
}

impl OptionWrappingDiv<i8, i8> for i8 {
    type Output = i8;

    open spec fn absent(self, rhs: i8) -> bool {
        false
    }

    open spec fn defined(self, rhs: i8) -> bool {
        rhs != 0
    }

    open spec fn quotient(self, rhs: i8) -> i8 {
        wrap_quot(self as int, rhs as int, i8::MIN as int, i8::MAX as int) as i8
    }

    fn opt_wrapping_div(self, rhs: i8) -> (r: Option<i8>) {
        proof {
            lemma_trunc_quot_overflow_exact(
                self as int,
                rhs as int,
                i8::MIN as int,
                i8::MAX as int,
            );
        }
        if self == i8::MIN && rhs == -1 {
            Some(self)
        } else {
            Some(self.checked_div(rhs).unwrap())
        }
    }
}

impl OptionOperations for i16 {

}

impl OptionDiv<i16, i16> for i16 {
    type Output = i16;

    open spec fn absent(self, rhs: i16) -> bool {
        false
    }

    open spec fn defined(self, rhs: i16) -> bool {
        rhs != 0 && !(self == i16::MIN && rhs == -1)
    }

    open spec fn quotient(self, rhs: i16) -> i16 {
        trunc_quot(self as int, rhs as int) as i16
    }

    fn opt_div(self, rhs: i16) -> (r: Option<i16>) {
        proof {
            lemma_trunc_quot_in_range(self as int, rhs as int, i16::MIN as int, i16::MAX as int);
        }
        Some(self.checked_div(rhs).unwrap())
    }
}

impl OptionDivAssign<i16, i16> for i16 {
    open spec fn unchanged(self, rhs: i16) -> bool {
        false
    }

    open spec fn defined(self, rhs: i16) -> bool {
        rhs != 0 && !(self == i16::MIN && rhs == -1)
    }

    open spec fn updated(self, rhs: i16) -> i16 {
        trunc_quot(self as int, rhs as int) as i16
    }

    fn opt_div_assign(&mut self, rhs: i16) {
        proof {
            lemma_trunc_quot_in_range(
                *old(self) as int,
                rhs as int,
                i16::MIN as int,
                i16::MAX as int,
            );
        }
        let lhs: i16 = *self;
        *self = lhs.checked_div(rhs).unwrap();
    }
}

impl OptionCheckedDiv<i16, i16> for i16 {
    type Output = i16;

    open spec fn absent(self, rhs: i16) -> bool {
        false
    }

    open spec fn divisor_is_zero(self, rhs: i16) -> bool {
        rhs == 0
    }

    open spec fn overflows(self, rhs: i16) -> bool {
        self == i16::MIN && rhs == -1
    }

    open spec fn quotient(self, rhs: i16) -> i16 {
        trunc_quot(self as int, rhs as int) as i16
    }

    fn opt_checked_div(self, rhs: i16) -> (r: Result<Option<i16>, Error>) {
        if rhs == 0 {
            return Err(Error::DivisionByZero);
        }
        proof {
            lemma_trunc_quot_overflow_exact(
                self as int,
                rhs as int,
                i16::MIN as int,
                i16::MAX as int,
            );
        }
        match self.checked_div(rhs) {
            Some(quotient) => Ok(Some(quotient)),
            None => Err(Error::Overflow),
        }
    }
}

impl OptionOverflowingDiv<i16, i16> for i16 {
    type Output = i16;

    open spec fn absent(self, rhs: i16) -> bool {
        false
    }

    open spec fn defined(self, rhs: i16) -> bool {
        rhs != 0
    }

    open spec fn overflows(self, rhs: i16) -> bool {
        self == i16::MIN && rhs == -1
    }

    open spec fn quotient(self, rhs: i16) -> i16 {
        wrap_quot(self as int, rhs as int, i16::MIN as int, i16::MAX as int) as i16
    }

    fn opt_overflowing_div(self, rhs: i16) -> (r: Option<(i16, bool)>) {
        proof {
            lemma_trunc_quot_overflow_exact(
                self as int,
                rhs as int,
                i16::MIN as int,
                i16::MAX as int,
            );
        }
        if self == i16::MIN && rhs == -1 {
            Some((self, true))
        } else {
            Some((self.checked_div(rhs).unwrap(), false))
        }
    }
}

impl OptionWrappingDiv<i16, i16> for i16 {
    type Output = i16;

    open spec fn absent(self, rhs: i16) -> bool {
        false
    }

    open spec fn defined(self, rhs: i16) -> bool {
        rhs != 0
    }

    open spec fn quotient(self, rhs: i16) -> i16 {
        wrap_quot(self as int, rhs as int, i16::MIN as int, i16::MAX as int) as i16
    }

    fn opt_wrapping_div(self, rhs: i16) -> (r: Option<i16>) {
        proof {
            lemma_trunc_quot_overflow_exact(
                self as int,
                rhs as int,
                i16::MIN as int,
                i16::MAX as int,
            );
        }
        if self == i16::MIN && rhs == -1 {
            Some(self)
        } else {
            Some(self.checked_div(rhs).unwrap())
        }
    }
}

impl OptionOperations for i32 {

}

impl OptionDiv<i32, i32> for i32 {
    type Output = i32;

    open spec fn absent(self, rhs: i32) -> bool {
        false
    }

    open spec fn defined(self, rhs: i32) -> bool {
        rhs != 0 && !(self == i32::MIN && rhs == -1)
    }

    open spec fn quotient(self, rhs: i32) -> i32 {
        trunc_quot(self as int, rhs as int) as i32
    }

    fn opt_div(self, rhs: i32) -> (r: Option<i32>) {
        proof {
            lemma_trunc_quot_in_range(self as int, rhs as int, i32::MIN as int, i32::MAX as int);
        }
        Some(self.checked_div(rhs).unwrap())
    }
}

impl OptionDivAssign<i32, i32> for i32 {
    open spec fn unchanged(self, rhs: i32) -> bool {
        false
    }

    open spec fn defined(self, rhs: i32) -> bool {
        rhs != 0 && !(self == i32::MIN && rhs == -1)
    }

    open spec fn updated(self, rhs: i32) -> i32 {
        trunc_quot(self as int, rhs as int) as i32
    }

    fn opt_div_assign(&mut self, rhs: i32) {
        proof {
            lemma_trunc_quot_in_range(
                *old(self) as int,
                rhs as int,
                i32::MIN as int,
                i32::MAX as int,
            );
        }
        let lhs: i32 = *self;
        *self = lhs.checked_div(rhs).unwrap();
    }
}

impl OptionCheckedDiv<i32, i32> for i32 {
    type Output = i32;

    open spec fn absent(self, rhs: i32) -> bool {
        false
    }

    open spec fn divisor_is_zero(self, rhs: i32) -> bool {
        rhs == 0
    }

    open spec fn overflows(self, rhs: i32) -> bool {
        self == i32::MIN && rhs == -1
    }

    open spec fn quotient(self, rhs: i32) -> i32 {
        trunc_quot(self as int, rhs as int) as i32
    }

    fn opt_checked_div(self, rhs: i32) -> (r: Result<Option<i32>, Error>) {
        if rhs == 0 {
            return Err(Error::DivisionByZero);
        }
        proof {
            lemma_trunc_quot_overflow_exact(
                self as int,
                rhs as int,
                i32::MIN as int,
                i32::MAX as int,
            );
        }
        match self.checked_div(rhs) {
            Some(quotient) => Ok(Some(quotient)),
            None => Err(Error::Overflow),
        }
    }
}

impl OptionOverflowingDiv<i32, i32> for i32 {
    type Output = i32;

    open spec fn absent(self, rhs: i32) -> bool {
        false
    }

    open spec fn defined(self, rhs: i32) -> bool {
        rhs != 0
    }

    open spec fn overflows(self, rhs: i32) -> bool {
        self == i32::MIN && rhs == -1
    }

    open spec fn quotient(self, rhs: i32) -> i32 {
        wrap_quot(self as int, rhs as int, i32::MIN as int, i32::MAX as int) as i32
    }

    fn opt_overflowing_div(self, rhs: i32) -> (r: Option<(i32, bool)>) {
        proof {
            lemma_trunc_quot_overflow_exact(
                self as int,
                rhs as int,
                i32::MIN as int,
                i32::MAX as int,
            );
        }
        if self == i32::MIN && rhs == -1 {
            Some((self, true))
        } else {
            Some((self.checked_div(rhs).unwrap(), false))
        }
    }
}

impl OptionWrappingDiv<i32, i32> for i32 {
    type Output = i32;

    open spec fn absent(self, rhs: i32) -> bool {
        false
    }

    open spec fn defined(self, rhs: i32) -> bool {
        rhs != 0
    }

    open spec fn quotient(self, rhs: i32) -> i32 {
        wrap_quot(self as int, rhs as int, i32::MIN as int, i32::MAX as int) as i32
    }

    fn opt_wrapping_div(self, rhs: i32) -> (r: Option<i32>) {
        proof {
            lemma_trunc_quot_overflow_exact(
                self as int,
                rhs as int,
                i32::MIN as int,
                i32::MAX as int,
            );
        }
        if self == i32::MIN && rhs == -1 {
            Some(self)
        } else {
            Some(self.checked_div(rhs).unwrap())
        }
    }
}

impl OptionOperations for i64 {

}

impl OptionDiv<i64, i64> for i64 {
    type Output = i64;

    open spec fn absent(self, rhs: i64) -> bool {
        false
    }

    open spec fn defined(self, rhs: i64) -> bool {
        rhs != 0 && !(self == i64::MIN && rhs == -1)
    }

    open spec fn quotient(self, rhs: i64) -> i64 {
        trunc_quot(self as int, rhs as int) as i64
    }

    fn opt_div(self, rhs: i64) -> (r: Option<i64>) {
        proof {
            lemma_trunc_quot_in_range(self as int, rhs as int, i64::MIN as int, i64::MAX as int);
        }
        Some(self.checked_div(rhs).unwrap())
    }
}

impl OptionDivAssign<i64, i64> for i64 {
    open spec fn unchanged(self, rhs: i64) -> bool {
        false
    }

    open spec fn defined(self, rhs: i64) -> bool {
        rhs != 0 && !(self == i64::MIN && rhs == -1)
    }

    open spec fn updated(self, rhs: i64) -> i64 {
        trunc_quot(self as int, rhs as int) as i64
    }

    fn opt_div_assign(&mut self, rhs: i64) {
        proof {
            lemma_trunc_quot_in_range(
                *old(self) as int,
                rhs as int,
                i64::MIN as int,
                i64::MAX as int,
            );
        }
        let lhs: i64 = *self;
        *self = lhs.checked_div(rhs).unwrap();
    }
}

impl OptionCheckedDiv<i64, i64> for i64 {
    type Output = i64;

    open spec fn absent(self, rhs: i64) -> bool {
        false
    }

    open spec fn divisor_is_zero(self, rhs: i64) -> bool {
        rhs == 0
    }

    open spec fn overflows(self, rhs: i64) -> bool {
        self == i64::MIN && rhs == -1
    }

    open spec fn quotient(self, rhs: i64) -> i64 {
        trunc_quot(self as int, rhs as int) as i64
    }

    fn opt_checked_div(self, rhs: i64) -> (r: Result<Option<i64>, Error>) {
        if rhs == 0 {
            return Err(Error::DivisionByZero);
        }
        proof {
            lemma_trunc_quot_overflow_exact(
                self as int,
                rhs as int,
                i64::MIN as int,
                i64::MAX as int,
            );
        }
        match self.checked_div(rhs) {
            Some(quotient) => Ok(Some(quotient)),
            None => Err(Error::Overflow),
        }
    }
}

impl OptionOverflowingDiv<i64, i64> for i64 {
    type Output = i64;

    open spec fn absent(self, rhs: i64) -> bool {
        false
    }

    open spec fn defined(self, rhs: i64) -> bool {
        rhs != 0
    }

    open spec fn overflows(self, rhs: i64) -> bool {
        self == i64::MIN && rhs == -1
    }

    open spec fn quotient(self, rhs: i64) -> i64 {
        wrap_quot(self as int, rhs as int, i64::MIN as int, i64::MAX as int) as i64
    }

    fn opt_overflowing_div(self, rhs: i64) -> (r: Option<(i64, bool)>) {
        proof {
            lemma_trunc_quot_overflow_exact(
                self as int,
                rhs as int,
                i64::MIN as int,
                i64::MAX as int,
            );
        }
        if self == i64::MIN && rhs == -1 {
            Some((self, true))
        } else {
            Some((self.checked_div(rhs).unwrap(), false))
        }
    }
}

impl OptionWrappingDiv<i64, i64> for i64 {
    type Output = i64;

    open spec fn absent(self, rhs: i64) -> bool {
        false
    }

    open spec fn defined(self, rhs: i64) -> bool {
        rhs != 0
    }

    open spec fn quotient(self, rhs: i64) -> i64 {
        wrap_quot(self as int, rhs as int, i64::MIN as int, i64::MAX as int) as i64
    }

    fn opt_wrapping_div(self, rhs: i64) -> (r: Option<i64>) {
        proof {
            lemma_trunc_quot_overflow_exact(
                self as int,
                rhs as int,
                i64::MIN as int,
                i64::MAX as int,
            );
        }
        if self == i64::MIN && rhs == -1 {
            Some(self)
        } else {
            Some(self.checked_div(rhs).unwrap())
        }
    }
}

impl OptionOperations for i128 {

}

impl OptionDiv<i128, i128> for i128 {
    type Output = i128;

    open spec fn absent(self, rhs: i128) -> bool {
        false
    }

    open spec fn defined(self, rhs: i128) -> bool {
        rhs != 0 && !(self == i128::MIN && rhs == -1)
    }

    open spec fn quotient(self, rhs: i128) -> i128 {
        trunc_quot(self as int, rhs as int) as i128
    }

    fn opt_div(self, rhs: i128) -> (r: Option<i128>) {
        proof {
            lemma_trunc_quot_in_range(self as int, rhs as int, i128::MIN as int, i128::MAX as int);
        }
        Some(self.checked_div(rhs).unwrap())
    }
}

impl OptionDivAssign<i128, i128> for i128 {
    open spec fn unchanged(self, rhs: i128) -> bool {
        false
    }

    open spec fn defined(self, rhs: i128) -> bool {
        rhs != 0 && !(self == i128::MIN && rhs == -1)
    }

    open spec fn updated(self, rhs: i128) -> i128 {
        trunc_quot(self as int, rhs as int) as i128
    }

    fn opt_div_assign(&mut self, rhs: i128) {
        proof {
            lemma_trunc_quot_in_range(
                *old(self) as int,
                rhs as int,
                i128::MIN as int,
                i128::MAX as int,
            );
        }
        let lhs: i128 = *self;
        *self = lhs.checked_div(rhs).unwrap();
    }
}

impl OptionCheckedDiv<i128, i128> for i128 {
    type Output = i128;

    open spec fn absent(self, rhs: i128) -> bool {
        false
    }

    open spec fn divisor_is_zero(self, rhs: i128) -> bool {
        rhs == 0
    }

    open spec fn overflows(self, rhs: i128) -> bool {
        self == i128::MIN && rhs == -1
    }

    open spec fn quotient(self, rhs: i128) -> i128 {
        trunc_quot(self as int, rhs as int) as i128
    }

    fn opt_checked_div(self, rhs: i128) -> (r: Result<Option<i128>, Error>) {
        if rhs == 0 {
            return Err(Error::DivisionByZero);
        }
        proof {
            lemma_trunc_quot_overflow_exact(
                self as int,
                rhs as int,
                i128::MIN as int,
                i128::MAX as int,
            );
        }
        match self.checked_div(rhs) {
            Some(quotient) => Ok(Some(quotient)),
            None => Err(Error::Overflow),
        }
    }
}

impl OptionOverflowingDiv<i128, i128> for i128 {
    type Output = i128;

    open spec fn absent(self, rhs: i128) -> bool {
        false
    }

    open spec fn defined(self, rhs: i128) -> bool {
        rhs != 0
    }

    open spec fn overflows(self, rhs: i128) -> bool {
        self == i128::MIN && rhs == -1
    }

    open spec fn quotient(self, rhs: i128) -> i128 {
        wrap_quot(self as int, rhs as int, i128::MIN as int, i128::MAX as int) as i128
    }

    fn opt_overflowing_div(self, rhs: i128) -> (r: Option<(i128, bool)>) {
        proof {
            lemma_trunc_quot_overflow_exact(
                self as int,
                rhs as int,
                i128::MIN as int,
                i128::MAX as int,
            );
        }
        if self == i128::MIN && rhs == -1 {
            Some((self, true))
        } else {
            Some((self.checked_div(rhs).unwrap(), false))
        }
    }
}

impl OptionWrappingDiv<i128, i128> for i128 {
    type Output = i128;

    open spec fn absent(self, rhs: i128) -> bool {
        false
    }

    open spec fn defined(self, rhs: i128) -> bool {
        rhs != 0
    }

    open spec fn quotient(self, rhs: i128) -> i128 {
        wrap_quot(self as int, rhs as int, i128::MIN as int, i128::MAX as int) as i128
    }

    fn opt_wrapping_div(self, rhs: i128) -> (r: Option<i128>) {
        proof {
            lemma_trunc_quot_overflow_exact(
                self as int,
                rhs as int,
                i128::MIN as int,
                i128::MAX as int,
            );
        }
        if self == i128::MIN && rhs == -1 {
            Some(self)
        } else {
            Some(self.checked_div(rhs).unwrap())
        }
    }
}

impl OptionOperations for isize {

}

impl OptionDiv<isize, isize> for isize {
    type Output = isize;

    open spec fn absent(self, rhs: isize) -> bool {
        false
    }

    open spec fn defined(self, rhs: isize) -> bool {
        rhs != 0 && !(self == isize::MIN && rhs == -1)
    }

    open spec fn quotient(self, rhs: isize) -> isize {
        trunc_quot(self as int, rhs as int) as isize
    }

    fn opt_div(self, rhs: isize) -> (r: Option<isize>) {
        proof {
            lemma_trunc_quot_in_range(self as int, rhs as int, isize::MIN as int, isize::MAX as int);
        }
        Some(self.checked_div(rhs).unwrap())
    }
}

impl OptionDivAssign<isize, isize> for isize {
    open spec fn unchanged(self, rhs: isize) -> bool {
        false
    }

    open spec fn defined(self, rhs: isize) -> bool {
        rhs != 0 && !(self == isize::MIN && rhs == -1)
    }

    open spec fn updated(self, rhs: isize) -> isize {
        trunc_quot(self as int, rhs as int) as isize
    }

    fn opt_div_assign(&mut self, rhs: isize) {
        proof {
            lemma_trunc_quot_in_range(
                *old(self) as int,
                rhs as int,
                isize::MIN as int,
                isize::MAX as int,
            );
        }
        let lhs: isize = *self;
        *self = lhs.checked_div(rhs).unwrap();
    }
}

impl OptionCheckedDiv<isize, isize> for isize {
    type Output = isize;

    open spec fn absent(self, rhs: isize) -> bool {
        false
    }

    open spec fn divisor_is_zero(self, rhs: isize) -> bool {
        rhs == 0
    }

    open spec fn overflows(self, rhs: isize) -> bool {
        self == isize::MIN && rhs == -1
    }

    open spec fn quotient(self, rhs: isize) -> isize {
        trunc_quot(self as int, rhs as int) as isize
    }

    fn opt_checked_div(self, rhs: isize) -> (r: Result<Option<isize>, Error>) {
        if rhs == 0 {
            return Err(Error::DivisionByZero);
        }
        proof {
            lemma_trunc_quot_overflow_exact(
                self as int,
                rhs as int,
                isize::MIN as int,
                isize::MAX as int,
            );
        }
        match self.checked_div(rhs) {
            Some(quotient) => Ok(Some(quotient)),
            None => Err(Error::Overflow),
        }
    }
}

impl OptionOverflowingDiv<isize, isize> for isize {
    type Output = isize;

    open spec fn absent(self, rhs: isize) -> bool {
        false
    }

    open spec fn defined(self, rhs: isize) -> bool {
        rhs != 0
    }

    open spec fn overflows(self, rhs: isize) -> bool {
        self == isize::MIN && rhs == -1
    }

    open spec fn quotient(self, rhs: isize) -> isize {
        wrap_quot(self as int, rhs as int, isize::MIN as int, isize::MAX as int) as isize
    }

    fn opt_overflowing_div(self, rhs: isize) -> (r: Option<(isize, bool)>) {
        proof {
            lemma_trunc_quot_overflow_exact(
                self as int,
                rhs as int,
                isize::MIN as int,
                isize::MAX as int,
            );
        }
        if self == isize::MIN && rhs == -1 {
            Some((self, true))
        } else {
            Some((self.checked_div(rhs).unwrap(), false))
        }
    }
}

impl OptionWrappingDiv<isize, isize> for isize {
    type Output = isize;

    open spec fn absent(self, rhs: isize) -> bool {
        false
    }

    open spec fn defined(self, rhs: isize) -> bool {
        rhs != 0
    }

    open spec fn quotient(self, rhs: isize) -> isize {
        wrap_quot(self as int, rhs as int, isize::MIN as int, isize::MAX as int) as isize
    }

    fn opt_wrapping_div(self, rhs: isize) -> (r: Option<isize>) {
        proof {
            lemma_trunc_quot_overflow_exact(
                self as int,
                rhs as int,
                isize::MIN as int,
                isize::MAX as int,
            );
        }
        if self == isize::MIN && rhs == -1 {
            Some(self)
        } else {
            Some(self.checked_div(rhs).unwrap())
        }
    }
}

impl OptionOperations for u8 {

}

impl OptionDiv<u8, u8> for u8 {
    type Output = u8;

    open spec fn absent(self, rhs: u8) -> bool {
        false
    }

    open spec fn defined(self, rhs: u8) -> bool {
        rhs != 0
    }

    open spec fn quotient(self, rhs: u8) -> u8 {
        trunc_quot(self as int, rhs as int) as u8
    }

    fn opt_div(self, rhs: u8) -> (r: Option<u8>) {
        proof {
            lemma_trunc_quot_unsigned(self as int, rhs as int, u8::MAX as int);
        }
        Some(self.checked_div(rhs).unwrap())
    }
}

impl OptionDivAssign<u8, u8> for u8 {
    open spec fn unchanged(self, rhs: u8) -> bool {
        false
    }

    open spec fn defined(self, rhs: u8) -> bool {
        rhs != 0
    }

    open spec fn updated(self, rhs: u8) -> u8 {
        trunc_quot(self as int, rhs as int) as u8
    }

    fn opt_div_assign(&mut self, rhs: u8) {
        proof {
            lemma_trunc_quot_unsigned(*old(self) as int, rhs as int, u8::MAX as int);
        }
        let lhs: u8 = *self;
        *self = lhs.checked_div(rhs).unwrap();
    }
}

impl OptionCheckedDiv<u8, u8> for u8 {
    type Output = u8;

    open spec fn absent(self, rhs: u8) -> bool {
        false
    }

    open spec fn divisor_is_zero(self, rhs: u8) -> bool {
        rhs == 0
    }

    open spec fn overflows(self, rhs: u8) -> bool {
        false
    }

    open spec fn quotient(self, rhs: u8) -> u8 {
        trunc_quot(self as int, rhs as int) as u8
    }

    fn opt_checked_div(self, rhs: u8) -> (r: Result<Option<u8>, Error>) {
        if rhs == 0 {
            return Err(Error::DivisionByZero);
        }
        proof {
            lemma_trunc_quot_unsigned(self as int, rhs as int, u8::MAX as int);
        }
        Ok(Some(self.checked_div(rhs).unwrap()))
    }
}

impl OptionOverflowingDiv<u8, u8> for u8 {
    type Output = u8;

    open spec fn absent(self, rhs: u8) -> bool {
        false
    }

    open spec fn defined(self, rhs: u8) -> bool {
        rhs != 0
    }

    open spec fn overflows(self, rhs: u8) -> bool {
        false
    }

    open spec fn quotient(self, rhs: u8) -> u8 {
        wrap_quot(self as int, rhs as int, 0, u8::MAX as int) as u8
    }

    fn opt_overflowing_div(self, rhs: u8) -> (r: Option<(u8, bool)>) {
        proof {
            lemma_trunc_quot_unsigned(self as int, rhs as int, u8::MAX as int);
        }
        Some((self.checked_div(rhs).unwrap(), false))
    }
}

impl OptionWrappingDiv<u8, u8> for u8 {
    type Output = u8;

    open spec fn absent(self, rhs: u8) -> bool {
        false
    }

    open spec fn defined(self, rhs: u8) -> bool {
        rhs != 0
    }

    open spec fn quotient(self, rhs: u8) -> u8 {
        wrap_quot(self as int, rhs as int, 0, u8::MAX as int) as u8
    }

    fn opt_wrapping_div(self, rhs: u8) -> (r: Option<u8>) {
        proof {
            lemma_trunc_quot_unsigned(self as int, rhs as int, u8::MAX as int);
        }
        Some(self.checked_div(rhs).unwrap())
    }
}

impl OptionOperations for u16 {

}

impl OptionDiv<u16, u16> for u16 {
    type Output = u16;

    open spec fn absent(self, rhs: u16) -> bool {
        false
    }

    open spec fn defined(self, rhs: u16) -> bool {
        rhs != 0
    }

    open spec fn quotient(self, rhs: u16) -> u16 {
        trunc_quot(self as int, rhs as int) as u16
    }

    fn opt_div(self, rhs: u16) -> (r: Option<u16>) {
        proof {
            lemma_trunc_quot_unsigned(self as int, rhs as int, u16::MAX as int);
        }
        Some(self.checked_div(rhs).unwrap())
    }
}

impl OptionDivAssign<u16, u16> for u16 {
    open spec fn unchanged(self, rhs: u16) -> bool {
        false
    }

    open spec fn defined(self, rhs: u16) -> bool {
        rhs != 0
    }

    open spec fn updated(self, rhs: u16) -> u16 {
        trunc_quot(self as int, rhs as int) as u16
    }

    fn opt_div_assign(&mut self, rhs: u16) {
        proof {
            lemma_trunc_quot_unsigned(*old(self) as int, rhs as int, u16::MAX as int);
        }
        let lhs: u16 = *self;
        *self = lhs.checked_div(rhs).unwrap();
    }
}

impl OptionCheckedDiv<u16, u16> for u16 {
    type Output = u16;

    open spec fn absent(self, rhs: u16) -> bool {
        false
    }

    open spec fn divisor_is_zero(self, rhs: u16) -> bool {
        rhs == 0
    }

    open spec fn overflows(self, rhs: u16) -> bool {
        false
    }

    open spec fn quotient(self, rhs: u16) -> u16 {
        trunc_quot(self as int, rhs as int) as u16
    }

    fn opt_checked_div(self, rhs: u16) -> (r: Result<Option<u16>, Error>) {
        if rhs == 0 {
            return Err(Error::DivisionByZero);
        }
        proof {
            lemma_trunc_quot_unsigned(self as int, rhs as int, u16::MAX as int);
        }
        Ok(Some(self.checked_div(rhs).unwrap()))
    }
}

impl OptionOverflowingDiv<u16, u16> for u16 {
    type Output = u16;

    open spec fn absent(self, rhs: u16) -> bool {
        false
    }

    open spec fn defined(self, rhs: u16) -> bool {
        rhs != 0
    }

    open spec fn overflows(self, rhs: u16) -> bool {
        false
    }

    open spec fn quotient(self, rhs: u16) -> u16 {
        wrap_quot(self as int, rhs as int, 0, u16::MAX as int) as u16
    }

    fn opt_overflowing_div(self, rhs: u16) -> (r: Option<(u16, bool)>) {
        proof {
            lemma_trunc_quot_unsigned(self as int, rhs as int, u16::MAX as int);
        }
        Some((self.checked_div(rhs).unwrap(), false))
    }
}

impl OptionWrappingDiv<u16, u16> for u16 {
    type Output = u16;

    open spec fn absent(self, rhs: u16) -> bool {
        false
    }

    open spec fn defined(self, rhs: u16) -> bool {
        rhs != 0
    }

    open spec fn quotient(self, rhs: u16) -> u16 {
        wrap_quot(self as int, rhs as int, 0, u16::MAX as int) as u16
    }

    fn opt_wrapping_div(self, rhs: u16) -> (r: Option<u16>) {
        proof {
            lemma_trunc_quot_unsigned(self as int, rhs as int, u16::MAX as int);
        }
        Some(self.checked_div(rhs).unwrap())
    }
}

impl OptionOperations for u32 {

}

impl OptionDiv<u32, u32> for u32 {
    type Output = u32;

    open spec fn absent(self, rhs: u32) -> bool {
        false
    }

    open spec fn defined(self, rhs: u32) -> bool {
        rhs != 0
    }

    open spec fn quotient(self, rhs: u32) -> u32 {
        trunc_quot(self as int, rhs as int) as u32
    }

    fn opt_div(self, rhs: u32) -> (r: Option<u32>) {
        proof {
            lemma_trunc_quot_unsigned(self as int, rhs as int, u32::MAX as int);
        }
        Some(self.checked_div(rhs).unwrap())
    }
}

impl OptionDivAssign<u32, u32> for u32 {
    open spec fn unchanged(self, rhs: u32) -> bool {
        false
    }

    open spec fn defined(self, rhs: u32) -> bool {
        rhs != 0
    }

    open spec fn updated(self, rhs: u32) -> u32 {
        trunc_quot(self as int, rhs as int) as u32
    }

    fn opt_div_assign(&mut self, rhs: u32) {
        proof {
            lemma_trunc_quot_unsigned(*old(self) as int, rhs as int, u32::MAX as int);
        }
        let lhs: u32 = *self;
        *self = lhs.checked_div(rhs).unwrap();
    }
}

impl OptionCheckedDiv<u32, u32> for u32 {
    type Output = u32;

    open spec fn absent(self, rhs: u32) -> bool {
        false
    }

    open spec fn divisor_is_zero(self, rhs: u32) -> bool {
        rhs == 0
    }

    open spec fn overflows(self, rhs: u32) -> bool {
        false
    }

    open spec fn quotient(self, rhs: u32) -> u32 {
        trunc_quot(self as int, rhs as int) as u32
    }

    fn opt_checked_div(self, rhs: u32) -> (r: Result<Option<u32>, Error>) {
        if rhs == 0 {
            return Err(Error::DivisionByZero);
        }
        proof {
            lemma_trunc_quot_unsigned(self as int, rhs as int, u32::MAX as int);
        }
        Ok(Some(self.checked_div(rhs).unwrap()))
    }
}

impl OptionOverflowingDiv<u32, u32> for u32 {
    type Output = u32;

    open spec fn absent(self, rhs: u32) -> bool {
        false
    }

    open spec fn defined(self, rhs: u32) -> bool {
        rhs != 0
    }

    open spec fn overflows(self, rhs: u32) -> bool {
        false
    }

    open spec fn quotient(self, rhs: u32) -> u32 {
        wrap_quot(self as int, rhs as int, 0, u32::MAX as int) as u32
    }

    fn opt_overflowing_div(self, rhs: u32) -> (r: Option<(u32, bool)>) {
        proof {
            lemma_trunc_quot_unsigned(self as int, rhs as int, u32::MAX as int);
        }
        Some((self.checked_div(rhs).unwrap(), false))
    }
}

impl OptionWrappingDiv<u32, u32> for u32 {
    type Output = u32;

    open spec fn absent(self, rhs: u32) -> bool {
        false
    }

    open spec fn defined(self, rhs: u32) -> bool {
        rhs != 0
    }

    open spec fn quotient(self, rhs: u32) -> u32 {
        wrap_quot(self as int, rhs as int, 0, u32::MAX as int) as u32
    }

    fn opt_wrapping_div(self, rhs: u32) -> (r: Option<u32>) {
        proof {
            lemma_trunc_quot_unsigned(self as int, rhs as int, u32::MAX as int);
        }
        Some(self.checked_div(rhs).unwrap())
    }
}

impl OptionOperations for u64 {

}

impl OptionDiv<u64, u64> for u64 {
    type Output = u64;

    open spec fn absent(self, rhs: u64) -> bool {
        false
    }

    open spec fn defined(self, rhs: u64) -> bool {
        rhs != 0
    }

    open spec fn quotient(self, rhs: u64) -> u64 {
        trunc_quot(self as int, rhs as int) as u64
    }

    fn opt_div(self, rhs: u64) -> (r: Option<u64>) {
        proof {
            lemma_trunc_quot_unsigned(self as int, rhs as int, u64::MAX as int);
        }
        Some(self.checked_div(rhs).unwrap())
    }
}

impl OptionDivAssign<u64, u64> for u64 {
    open spec fn unchanged(self, rhs: u64) -> bool {
        false
    }

    open spec fn defined(self, rhs: u64) -> bool {
        rhs != 0
    }

    open spec fn updated(self, rhs: u64) -> u64 {
        trunc_quot(self as int, rhs as int) as u64
    }

    fn opt_div_assign(&mut self, rhs: u64) {
        proof {
            lemma_trunc_quot_unsigned(*old(self) as int, rhs as int, u64::MAX as int);
        }
        let lhs: u64 = *self;
        *self = lhs.checked_div(rhs).unwrap();
    }
}

impl OptionCheckedDiv<u64, u64> for u64 {
    type Output = u64;

    open spec fn absent(self, rhs: u64) -> bool {
        false
    }

    open spec fn divisor_is_zero(self, rhs: u64) -> bool {
        rhs == 0
    }

    open spec fn overflows(self, rhs: u64) -> bool {
        false
    }

    open spec fn quotient(self, rhs: u64) -> u64 {
        trunc_quot(self as int, rhs as int) as u64
    }

    fn opt_checked_div(self, rhs: u64) -> (r: Result<Option<u64>, Error>) {
        if rhs == 0 {
            return Err(Error::DivisionByZero);
        }
        proof {
            lemma_trunc_quot_unsigned(self as int, rhs as int, u64::MAX as int);
        }
        Ok(Some(self.checked_div(rhs).unwrap()))
    }
}

impl OptionOverflowingDiv<u64, u64> for u64 {
    type Output = u64;

    open spec fn absent(self, rhs: u64) -> bool {
        false
    }

    open spec fn defined(self, rhs: u64) -> bool {
        rhs != 0
    }

    open spec fn overflows(self, rhs: u64) -> bool {
        false
    }

    open spec fn quotient(self, rhs: u64) -> u64 {
        wrap_quot(self as int, rhs as int, 0, u64::MAX as int) as u64
    }

    fn opt_overflowing_div(self, rhs: u64) -> (r: Option<(u64, bool)>) {
        proof {
            lemma_trunc_quot_unsigned(self as int, rhs as int, u64::MAX as int);
        }
        Some((self.checked_div(rhs).unwrap(), false))
    }
}

impl OptionWrappingDiv<u64, u64> for u64 {
    type Output = u64;

    open spec fn absent(self, rhs: u64) -> bool {
        false
    }

    open spec fn defined(self, rhs: u64) -> bool {
        rhs != 0
    }

    open spec fn quotient(self, rhs: u64) -> u64 {
        wrap_quot(self as int, rhs as int, 0, u64::MAX as int) as u64
    }

    fn opt_wrapping_div(self, rhs: u64) -> (r: Option<u64>) {
        proof {
            lemma_trunc_quot_unsigned(self as int, rhs as int, u64::MAX as int);
        }
        Some(self.checked_div(rhs).unwrap())
    }
}

impl OptionOperations for u128 {

}

impl OptionDiv<u128, u128> for u128 {
    type Output = u128;

    open spec fn absent(self, rhs: u128) -> bool {
        false
    }

    open spec fn defined(self, rhs: u128) -> bool {
        rhs != 0
    }

    open spec fn quotient(self, rhs: u128) -> u128 {
        trunc_quot(self as int, rhs as int) as u128
    }

    fn opt_div(self, rhs: u128) -> (r: Option<u128>) {
        proof {
            lemma_trunc_quot_unsigned(self as int, rhs as int, u128::MAX as int);
        }
        Some(self.checked_div(rhs).unwrap())
    }
}

impl OptionDivAssign<u128, u128> for u128 {
    open spec fn unchanged(self, rhs: u128) -> bool {
        false
    }

    open spec fn defined(self, rhs: u128) -> bool {
        rhs != 0
    }

    open spec fn updated(self, rhs: u128) -> u128 {
        trunc_quot(self as int, rhs as int) as u128
    }

    fn opt_div_assign(&mut self, rhs: u128) {
        proof {
            lemma_trunc_quot_unsigned(*old(self) as int, rhs as int, u128::MAX as int);
        }
        let lhs: u128 = *self;
        *self = lhs.checked_div(rhs).unwrap();
    }
}

impl OptionCheckedDiv<u128, u128> for u128 {
    type Output = u128;

    open spec fn absent(self, rhs: u128) -> bool {
        false
    }

    open spec fn divisor_is_zero(self, rhs: u128) -> bool {
        rhs == 0
    }

    open spec fn overflows(self, rhs: u128) -> bool {
        false
    }

    open spec fn quotient(self, rhs: u128) -> u128 {
        trunc_quot(self as int, rhs as int) as u128
    }

    fn opt_checked_div(self, rhs: u128) -> (r: Result<Option<u128>, Error>) {
        if rhs == 0 {
            return Err(Error::DivisionByZero);
        }
        proof {
            lemma_trunc_quot_unsigned(self as int, rhs as int, u128::MAX as int);
        }
        Ok(Some(self.checked_div(rhs).unwrap()))
    }
}

impl OptionOverflowingDiv<u128, u128> for u128 {
    type Output = u128;

    open spec fn absent(self, rhs: u128) -> bool {
        false
    }

    open spec fn defined(self, rhs: u128) -> bool {
        rhs != 0
    }

    open spec fn overflows(self, rhs: u128) -> bool {
        false
    }

    open spec fn quotient(self, rhs: u128) -> u128 {
        wrap_quot(self as int, rhs as int, 0, u128::MAX as int) as u128
    }

    fn opt_overflowing_div(self, rhs: u128) -> (r: Option<(u128, bool)>) {
        proof {
            lemma_trunc_quot_unsigned(self as int, rhs as int, u128::MAX as int);
        }
        Some((self.checked_div(rhs).unwrap(), false))
    }
}

impl OptionWrappingDiv<u128, u128> for u128 {
    type Output = u128;

    open spec fn absent(self, rhs: u128) -> bool {
        false
    }

    open spec fn defined(self, rhs: u128) -> bool {
        rhs != 0
    }

    open spec fn quotient(self, rhs: u128) -> u128 {
        wrap_quot(self as int, rhs as int, 0, u128::MAX as int) as u128
    }

    fn opt_wrapping_div(self, rhs: u128) -> (r: Option<u128>) {
        proof {
            lemma_trunc_quot_unsigned(self as int, rhs as int, u128::MAX as int);
        }
        Some(self.checked_div(rhs).unwrap())
    }
}

impl OptionOperations for usize {

}

impl OptionDiv<usize, usize> for usize {
    type Output = usize;

    open spec fn absent(self, rhs: usize) -> bool {
        false
    }

    open spec fn defined(self, rhs: usize) -> bool {
        rhs != 0
    }

    open spec fn quotient(self, rhs: usize) -> usize {
        trunc_quot(self as int, rhs as int) as usize
    }

    fn opt_div(self, rhs: usize) -> (r: Option<usize>) {
        proof {
            lemma_trunc_quot_unsigned(self as int, rhs as int, usize::MAX as int);
        }
        Some(self.checked_div(rhs).unwrap())
    }
}

impl OptionDivAssign<usize, usize> for usize {
    open spec fn unchanged(self, rhs: usize) -> bool {
        false
    }

    open spec fn defined(self, rhs: usize) -> bool {
        rhs != 0
    }

    open spec fn updated(self, rhs: usize) -> usize {
        trunc_quot(self as int, rhs as int) as usize
    }

    fn opt_div_assign(&mut self, rhs: usize) {
        proof {
            lemma_trunc_quot_unsigned(*old(self) as int, rhs as int, usize::MAX as int);
        }
        let lhs: usize = *self;
        *self = lhs.checked_div(rhs).unwrap();
    }
}

impl OptionCheckedDiv<usize, usize> for usize {
    type Output = usize;

    open spec fn absent(self, rhs: usize) -> bool {
        false
    }

    open spec fn divisor_is_zero(self, rhs: usize) -> bool {
        rhs == 0
    }

    open spec fn overflows(self, rhs: usize) -> bool {
        false
    }

    open spec fn quotient(self, rhs: usize) -> usize {
        trunc_quot(self as int, rhs as int) as usize
    }

    fn opt_checked_div(self, rhs: usize) -> (r: Result<Option<usize>, Error>) {
        if rhs == 0 {
            return Err(Error::DivisionByZero);
        }
        proof {
            lemma_trunc_quot_unsigned(self as int, rhs as int, usize::MAX as int);
        }
        Ok(Some(self.checked_div(rhs).unwrap()))
    }
}

impl OptionOverflowingDiv<usize, usize> for usize {
    type Output = usize;

    open spec fn absent(self, rhs: usize) -> bool {
        false
    }

    open spec fn defined(self, rhs: usize) -> bool {
        rhs != 0
    }

    open spec fn overflows(self, rhs: usize) -> bool {
        false
    }

    open spec fn quotient(self, rhs: usize) -> usize {
        wrap_quot(self as int, rhs as int, 0, usize::MAX as int) as usize
    }

    fn opt_overflowing_div(self, rhs: usize) -> (r: Option<(usize, bool)>) {
        proof {
            lemma_trunc_quot_unsigned(self as int, rhs as int, usize::MAX as int);
        }
        Some((self.checked_div(rhs).unwrap(), false))
    }
}

impl OptionWrappingDiv<usize, usize> for usize {
    type Output = usize;

    open spec fn absent(self, rhs: usize) -> bool {
        false
    }

    open spec fn defined(self, rhs: usize) -> bool {
        rhs != 0
    }

    open spec fn quotient(self, rhs: usize) -> usize {
        wrap_quot(self as int, rhs as int, 0, usize::MAX as int) as usize
    }

    fn opt_wrapping_div(self, rhs: usize) -> (r: Option<usize>) {
        proof {
            lemma_trunc_quot_unsigned(self as int, rhs as int, usize::MAX as int);
        }
        Some(self.checked_div(rhs).unwrap())
    }
}

} // verus!
