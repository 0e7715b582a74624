//! Division on values and `Option`s.
//!
//! Each trait here describes one division variant. A concrete type
//! supplies the base case — both operands bare values — and the blanket
//! implementations extend it to every mix of bare value, optional value
//! and reference-to-optional value, short-circuiting to `None` as soon
//! as one operand is absent.
//!
//! The traits carry their behaviour in spec functions: `absent` says
//! when a call propagates "no value", and the remaining spec functions
//! pin the result on present operands. Every implementation, blanket or
//! base, is verified against the same contract.

use vstd::prelude::*;
use crate::Error;
use crate::OptionOperations;

verus! {

/// Trait for values and `Option`s division.
///
/// A concrete type implements the base shape `OptionDiv<Rhs, Rhs>`; the
/// blanket implementations then cover:
///
/// - `OptionDiv<Option<InnerRhs>>` for `T`.
/// - `OptionDiv<&Option<InnerRhs>>` for `T`.
/// - `OptionDiv<Rhs>` for `Option<T>`.
/// - `OptionDiv<Option<InnerRhs>>` for `Option<T>`.
/// - `OptionDiv<&Option<InnerRhs>>` for `Option<T>`.
pub trait OptionDiv<Rhs, InnerRhs>: Sized {
    /// The resulting inner type after applying the operation.
    type Output;

    /// At least one operand is an absent optional.
    spec fn absent(self, rhs: Rhs) -> bool;

    /// Both operands are present, and their quotient is defined and
    /// representable.
    spec fn defined(self, rhs: Rhs) -> bool;

    /// The quotient of the two present operands.
    spec fn quotient(self, rhs: Rhs) -> Self::Output;

    /// Computes the division.
    ///
    /// Returns `None` if at least one argument is `None`, and the
    /// quotient otherwise. A zero divisor, and a quotient the output
    /// type cannot represent, are ruled out by the precondition: this
    /// variant does not protect against either.
    #[must_use]
    fn opt_div(self, rhs: Rhs) -> (r: Option<Self::Output>)
        requires
            self.absent(rhs) || self.defined(rhs),
        ensures
            self.absent(rhs) <==> r is None,
            self.defined(rhs) ==> r == Some(self.quotient(rhs)),
    ;
}

impl<T, InnerRhs> OptionDiv<Option<InnerRhs>, InnerRhs> for T where
    T: OptionOperations + OptionDiv<InnerRhs, InnerRhs>,
 {
    type Output = <T as OptionDiv<InnerRhs, InnerRhs>>::Output;

    open spec fn absent(self, rhs: Option<InnerRhs>) -> bool {
        rhs is None || <T as OptionDiv<InnerRhs, InnerRhs>>::absent(self, rhs->0)
    }

    open spec fn defined(self, rhs: Option<InnerRhs>) -> bool {
        rhs is Some && <T as OptionDiv<InnerRhs, InnerRhs>>::defined(self, rhs->0)
    }

    open spec fn quotient(self, rhs: Option<InnerRhs>) -> Self::Output {
        <T as OptionDiv<InnerRhs, InnerRhs>>::quotient(self, rhs->0)
    }

    fn opt_div(self, rhs: Option<InnerRhs>) -> (r: Option<Self::Output>) {
        match rhs {
            Some(inner_rhs) => <T as OptionDiv<InnerRhs, InnerRhs>>::opt_div(self, inner_rhs),
            None => None,
        }
    }
}

impl<T, InnerRhs> OptionDiv<&Option<InnerRhs>, InnerRhs> for T where
    T: OptionOperations + OptionDiv<InnerRhs, InnerRhs>,
    InnerRhs: Copy,
 {
    type Output = <T as OptionDiv<InnerRhs, InnerRhs>>::Output;

    open spec fn absent(self, rhs: &Option<InnerRhs>) -> bool {
        (*rhs) is None || <T as OptionDiv<InnerRhs, InnerRhs>>::absent(self, (*rhs)->0)
    }

    open spec fn defined(self, rhs: &Option<InnerRhs>) -> bool {
        (*rhs) is Some && <T as OptionDiv<InnerRhs, InnerRhs>>::defined(self, (*rhs)->0)
    }

    open spec fn quotient(self, rhs: &Option<InnerRhs>) -> Self::Output {
        <T as OptionDiv<InnerRhs, InnerRhs>>::quotient(self, (*rhs)->0)
    }

    fn opt_div(self, rhs: &Option<InnerRhs>) -> (r: Option<Self::Output>) {
        match rhs {
            Some(inner_rhs) => <T as OptionDiv<InnerRhs, InnerRhs>>::opt_div(self, *inner_rhs),
            None => None,
        }
    }
}

impl<T, Rhs> OptionDiv<Rhs, Rhs> for Option<T> where
    T: OptionOperations + OptionDiv<Rhs, Rhs>,
 {
    type Output = <T as OptionDiv<Rhs, Rhs>>::Output;

    open spec fn absent(self, rhs: Rhs) -> bool {
        self is None || <T as OptionDiv<Rhs, Rhs>>::absent(self->0, rhs)
    }

    open spec fn defined(self, rhs: Rhs) -> bool {
        self is Some && <T as OptionDiv<Rhs, Rhs>>::defined(self->0, rhs)
    }

    open spec fn quotient(self, rhs: Rhs) -> Self::Output {
        <T as OptionDiv<Rhs, Rhs>>::quotient(self->0, rhs)
    }

    fn opt_div(self, rhs: Rhs) -> (r: Option<Self::Output>) {
        match self {
            Some(inner_self) => <T as OptionDiv<Rhs, Rhs>>::opt_div(inner_self, rhs),
            None => None,
        }
    }
}

impl<T, InnerRhs> OptionDiv<Option<InnerRhs>, InnerRhs> for Option<T> where
    T: OptionOperations + OptionDiv<InnerRhs, InnerRhs>,
 {
    type Output = <T as OptionDiv<InnerRhs, InnerRhs>>::Output;

    open spec fn absent(self, rhs: Option<InnerRhs>) -> bool {
        self is None || rhs is None || <T as OptionDiv<InnerRhs, InnerRhs>>::absent(
            self->0,
            rhs->0,
        )
    }

    open spec fn defined(self, rhs: Option<InnerRhs>) -> bool {
        self is Some && rhs is Some && <T as OptionDiv<InnerRhs, InnerRhs>>::defined(
            self->0,
            rhs->0,
        )
    }

    open spec fn quotient(self, rhs: Option<InnerRhs>) -> Self::Output {
        <T as OptionDiv<InnerRhs, InnerRhs>>::quotient(self->0, rhs->0)
    }

    fn opt_div(self, rhs: Option<InnerRhs>) -> (r: Option<Self::Output>) {
        match (self, rhs) {
            (Some(inner_self), Some(inner_rhs)) => <T as OptionDiv<InnerRhs, InnerRhs>>::opt_div(
                inner_self,
                inner_rhs,
            ),
            _ => None,
        }
    }
}

impl<T, InnerRhs> OptionDiv<&Option<InnerRhs>, InnerRhs> for Option<T> where
    T: OptionOperations + OptionDiv<InnerRhs, InnerRhs>,
    InnerRhs: Copy,
 {
    type Output = <T as OptionDiv<InnerRhs, InnerRhs>>::Output;

    open spec fn absent(self, rhs: &Option<InnerRhs>) -> bool {
        self is None || (*rhs) is None || <T as OptionDiv<InnerRhs, InnerRhs>>::absent(
            self->0,
            (*rhs)->0,
        )
    }

    open spec fn defined(self, rhs: &Option<InnerRhs>) -> bool {
        self is Some && (*rhs) is Some && <T as OptionDiv<InnerRhs, InnerRhs>>::defined(
            self->0,
            (*rhs)->0,
        )
    }

    open spec fn quotient(self, rhs: &Option<InnerRhs>) -> Self::Output {
        <T as OptionDiv<InnerRhs, InnerRhs>>::quotient(self->0, (*rhs)->0)
    }

    fn opt_div(self, rhs: &Option<InnerRhs>) -> (r: Option<Self::Output>) {
        match (self, rhs) {
            (Some(inner_self), Some(inner_rhs)) => <T as OptionDiv<InnerRhs, InnerRhs>>::opt_div(
                inner_self,
                *inner_rhs,
            ),
            _ => None,
        }
    }
}

/// Trait for values and `Option`s division assignment.
///
/// A concrete type implements the base shape `OptionDivAssign<Rhs, Rhs>`;
/// the blanket implementations then cover:
///
/// - `OptionDivAssign<Option<InnerRhs>>` for `T`.
/// - `OptionDivAssign<&Option<InnerRhs>>` for `T`.
/// - `OptionDivAssign<Rhs>` for `Option<T>`.
/// - `OptionDivAssign<Option<InnerRhs>>` for `Option<T>`.
/// - `OptionDivAssign<&Option<InnerRhs>>` for `Option<T>`.
pub trait OptionDivAssign<Rhs, InnerRhs>: Sized {
    /// The call is a no-op: the divisor is absent, or `self` is an
    /// absent optional.
    spec fn unchanged(self, rhs: Rhs) -> bool;

    /// Both operands are present, and their quotient is defined and
    /// representable.
    spec fn defined(self, rhs: Rhs) -> bool;

    /// The value of `self` after dividing by a present divisor.
    spec fn updated(self, rhs: Rhs) -> Self;

    /// Performs the division assignment.
    ///
    /// `self` is unchanged if `rhs` is `None`, or if `self` is itself an
    /// absent optional. A zero divisor, and a quotient the type cannot
    /// represent, are ruled out by the precondition: this variant does
    /// not protect against either.
    fn opt_div_assign(&mut self, rhs: Rhs)
        requires
            old(self).unchanged(rhs) || old(self).defined(rhs),
        ensures
            old(self).unchanged(rhs) ==> *final(self) == *old(self),
            old(self).defined(rhs) ==> *final(self) == old(self).updated(rhs),
    ;
}

impl<T, InnerRhs> OptionDivAssign<Option<InnerRhs>, InnerRhs> for T where
    T: OptionOperations + OptionDivAssign<InnerRhs, InnerRhs>,
 {
    open spec fn unchanged(self, rhs: Option<InnerRhs>) -> bool {
        rhs is None || <T as OptionDivAssign<InnerRhs, InnerRhs>>::unchanged(self, rhs->0)
    }

    open spec fn defined(self, rhs: Option<InnerRhs>) -> bool {
        rhs is Some && <T as OptionDivAssign<InnerRhs, InnerRhs>>::defined(self, rhs->0)
    }

    open spec fn updated(self, rhs: Option<InnerRhs>) -> Self {
        <T as OptionDivAssign<InnerRhs, InnerRhs>>::updated(self, rhs->0)
    }

    fn opt_div_assign(&mut self, rhs: Option<InnerRhs>) {
        match rhs {
            Some(inner_rhs) => <T as OptionDivAssign<InnerRhs, InnerRhs>>::opt_div_assign(
                self,
                inner_rhs,
            ),
            None => {},
        }
    }
}

impl<T, InnerRhs> OptionDivAssign<&Option<InnerRhs>, InnerRhs> for T where
    T: OptionOperations + OptionDivAssign<InnerRhs, InnerRhs>,
    InnerRhs: Copy,
 {
    open spec fn unchanged(self, rhs: &Option<InnerRhs>) -> bool {
        (*rhs) is None || <T as OptionDivAssign<InnerRhs, InnerRhs>>::unchanged(self, (*rhs)->0)
    }

    open spec fn defined(self, rhs: &Option<InnerRhs>) -> bool {
        (*rhs) is Some && <T as OptionDivAssign<InnerRhs, InnerRhs>>::defined(self, (*rhs)->0)
    }

    open spec fn updated(self, rhs: &Option<InnerRhs>) -> Self {
        <T as OptionDivAssign<InnerRhs, InnerRhs>>::updated(self, (*rhs)->0)
    }

    fn opt_div_assign(&mut self, rhs: &Option<InnerRhs>) {
        match rhs {
            Some(inner_rhs) => <T as OptionDivAssign<InnerRhs, InnerRhs>>::opt_div_assign(
                self,
                *inner_rhs,
            ),
            None => {},
        }
    }
}

impl<T, Rhs> OptionDivAssign<Rhs, Rhs> for Option<T> where
    T: OptionOperations + OptionDivAssign<Rhs, Rhs>,
 {
    open spec fn unchanged(self, rhs: Rhs) -> bool {
        self is None || <T as OptionDivAssign<Rhs, Rhs>>::unchanged(self->0, rhs)
    }

    open spec fn defined(self, rhs: Rhs) -> bool {
        self is Some && <T as OptionDivAssign<Rhs, Rhs>>::defined(self->0, rhs)
    }

    open spec fn updated(self, rhs: Rhs) -> Self {
        Some(<T as OptionDivAssign<Rhs, Rhs>>::updated(self->0, rhs))
    }

    fn opt_div_assign(&mut self, rhs: Rhs) {
        match self {
            Some(inner_self) => <T as OptionDivAssign<Rhs, Rhs>>::opt_div_assign(inner_self, rhs),
            None => {},
        }
    }
}

impl<T, InnerRhs> OptionDivAssign<Option<InnerRhs>, InnerRhs> for Option<T> where
    T: OptionOperations + OptionDivAssign<InnerRhs, InnerRhs>,
 {
    open spec fn unchanged(self, rhs: Option<InnerRhs>) -> bool {
        self is None || rhs is None || <T as OptionDivAssign<InnerRhs, InnerRhs>>::unchanged(
            self->0,
            rhs->0,
        )
    }

    open spec fn defined(self, rhs: Option<InnerRhs>) -> bool {
        self is Some && rhs is Some && <T as OptionDivAssign<InnerRhs, InnerRhs>>::defined(
            self->0,
            rhs->0,
        )
    }

    open spec fn updated(self, rhs: Option<InnerRhs>) -> Self {
        Some(<T as OptionDivAssign<InnerRhs, InnerRhs>>::updated(self->0, rhs->0))
    }

    fn opt_div_assign(&mut self, rhs: Option<InnerRhs>) {
        match rhs {
            Some(inner_rhs) => match self {
                Some(inner_self) => <T as OptionDivAssign<InnerRhs, InnerRhs>>::opt_div_assign(
                    inner_self,
                    inner_rhs,
                ),
                None => {},
            },
            None => {},
        }
    }
}

impl<T, InnerRhs> OptionDivAssign<&Option<InnerRhs>, InnerRhs> for Option<T> where
    T: OptionOperations + OptionDivAssign<InnerRhs, InnerRhs>,
    InnerRhs: Copy,
 {
    open spec fn unchanged(self, rhs: &Option<InnerRhs>) -> bool {
        self is None || (*rhs) is None || <T as OptionDivAssign<InnerRhs, InnerRhs>>::unchanged(
            self->0,
            (*rhs)->0,
        )
    }

    open spec fn defined(self, rhs: &Option<InnerRhs>) -> bool {
        self is Some && (*rhs) is Some && <T as OptionDivAssign<InnerRhs, InnerRhs>>::defined(
            self->0,
            (*rhs)->0,
        )
    }

    open spec fn updated(self, rhs: &Option<InnerRhs>) -> Self {
        Some(<T as OptionDivAssign<InnerRhs, InnerRhs>>::updated(self->0, (*rhs)->0))
    }

    fn opt_div_assign(&mut self, rhs: &Option<InnerRhs>) {
        match rhs {
            Some(inner_rhs) => match self {
                Some(inner_self) => <T as OptionDivAssign<InnerRhs, InnerRhs>>::opt_div_assign(
                    inner_self,
                    *inner_rhs,
                ),
                None => {},
            },
            None => {},
        }
    }
}

/// Trait for values and `Option`s checked division.
///
/// A concrete type implements the base shape `OptionCheckedDiv<Rhs, Rhs>`;
/// the blanket implementations then cover:
///
/// - `OptionCheckedDiv<Option<InnerRhs>>` for `T`.
/// - `OptionCheckedDiv<&Option<InnerRhs>>` for `T`.
/// - `OptionCheckedDiv<Rhs>` for `Option<T>`.
/// - `OptionCheckedDiv<Option<InnerRhs>>` for `Option<T>`.
/// - `OptionCheckedDiv<&Option<InnerRhs>>` for `Option<T>`.
///
/// Unlike the other variants, this one is total: absence, a zero
/// divisor and an unrepresentable quotient are each reported in the
/// result, and the operation never panics.
pub trait OptionCheckedDiv<Rhs, InnerRhs>: Sized {
    /// The resulting inner type after applying the operation.
    type Output;

    /// At least one operand is an absent optional.
    spec fn absent(self, rhs: Rhs) -> bool;

    /// Both operands are present and the divisor is the additive
    /// identity.
    spec fn divisor_is_zero(self, rhs: Rhs) -> bool;

    /// Both operands are present, the divisor is non-zero, and the exact
    /// quotient is not representable in the output type.
    spec fn overflows(self, rhs: Rhs) -> bool;

    /// The quotient of the two present operands.
    spec fn quotient(self, rhs: Rhs) -> Self::Output;

    /// Computes the checked division.
    ///
    /// - Returns `Ok(None)` if at least one argument is `None`; absence
    ///   is checked before the operands are ever looked at.
    /// - Returns `Err(Error::DivisionByZero)` if both are present and
    ///   the divisor is zero.
    /// - Returns `Err(Error::Overflow)` if both are present, the divisor
    ///   is non-zero, and the exact quotient is not representable.
    /// - Returns `Ok(Some(quotient))` otherwise.
    fn opt_checked_div(self, rhs: Rhs) -> (r: Result<Option<Self::Output>, Error>)
        ensures
            self.absent(rhs) ==> r == Ok::<Option<Self::Output>, Error>(None),
            !self.absent(rhs) && self.divisor_is_zero(rhs) ==> r == Err::<
                Option<Self::Output>,
                Error,
            >(Error::DivisionByZero),
            !self.absent(rhs) && !self.divisor_is_zero(rhs) && self.overflows(rhs) ==> r == Err::<
                Option<Self::Output>,
                Error,
            >(Error::Overflow),
            !self.absent(rhs) && !self.divisor_is_zero(rhs) && !self.overflows(rhs) ==> r == Ok::<
                Option<Self::Output>,
                Error,
            >(Some(self.quotient(rhs))),
    ;
}

impl<T, InnerRhs> OptionCheckedDiv<Option<InnerRhs>, InnerRhs> for T where
    T: OptionOperations + OptionCheckedDiv<InnerRhs, InnerRhs>,
 {
    type Output = <T as OptionCheckedDiv<InnerRhs, InnerRhs>>::Output;

    open spec fn absent(self, rhs: Option<InnerRhs>) -> bool {
        rhs is None || <T as OptionCheckedDiv<InnerRhs, InnerRhs>>::absent(self, rhs->0)
    }

    open spec fn divisor_is_zero(self, rhs: Option<InnerRhs>) -> bool {
        rhs is Some && <T as OptionCheckedDiv<InnerRhs, InnerRhs>>::divisor_is_zero(self, rhs->0)
    }

    open spec fn overflows(self, rhs: Option<InnerRhs>) -> bool {
        rhs is Some && <T as OptionCheckedDiv<InnerRhs, InnerRhs>>::overflows(self, rhs->0)
    }

    open spec fn quotient(self, rhs: Option<InnerRhs>) -> Self::Output {
        <T as OptionCheckedDiv<InnerRhs, InnerRhs>>::quotient(self, rhs->0)
    }

    fn opt_checked_div(self, rhs: Option<InnerRhs>) -> (r: Result<Option<Self::Output>, Error>) {
        match rhs {
            Some(inner_rhs) => <T as OptionCheckedDiv<InnerRhs, InnerRhs>>::opt_checked_div(
                self,
                inner_rhs,
            ),
            None => Ok(None),
        }
    }
}

impl<T, InnerRhs> OptionCheckedDiv<&Option<InnerRhs>, InnerRhs> for T where
    T: OptionOperations + OptionCheckedDiv<InnerRhs, InnerRhs>,
    InnerRhs: Copy,
 {
    type Output = <T as OptionCheckedDiv<InnerRhs, InnerRhs>>::Output;

    open spec fn absent(self, rhs: &Option<InnerRhs>) -> bool {
        (*rhs) is None || <T as OptionCheckedDiv<InnerRhs, InnerRhs>>::absent(self, (*rhs)->0)
    }

    open spec fn divisor_is_zero(self, rhs: &Option<InnerRhs>) -> bool {
        (*rhs) is Some && <T as OptionCheckedDiv<InnerRhs, InnerRhs>>::divisor_is_zero(
            self,
            (*rhs)->0,
        )
    }

    open spec fn overflows(self, rhs: &Option<InnerRhs>) -> bool {
        (*rhs) is Some && <T as OptionCheckedDiv<InnerRhs, InnerRhs>>::overflows(self, (*rhs)->0)
    }

    open spec fn quotient(self, rhs: &Option<InnerRhs>) -> Self::Output {
        <T as OptionCheckedDiv<InnerRhs, InnerRhs>>::quotient(self, (*rhs)->0)
    }

    fn opt_checked_div(self, rhs: &Option<InnerRhs>) -> (r: Result<Option<Self::Output>, Error>) {
        match rhs {
            Some(inner_rhs) => <T as OptionCheckedDiv<InnerRhs, InnerRhs>>::opt_checked_div(
                self,
                *inner_rhs,
            ),
            None => Ok(None),
        }
    }
}

impl<T, Rhs> OptionCheckedDiv<Rhs, Rhs> for Option<T> where
    T: OptionOperations + OptionCheckedDiv<Rhs, Rhs>,
 {
    type Output = <T as OptionCheckedDiv<Rhs, Rhs>>::Output;

    open spec fn absent(self, rhs: Rhs) -> bool {
        self is None || <T as OptionCheckedDiv<Rhs, Rhs>>::absent(self->0, rhs)
    }

    open spec fn divisor_is_zero(self, rhs: Rhs) -> bool {
        self is Some && <T as OptionCheckedDiv<Rhs, Rhs>>::divisor_is_zero(self->0, rhs)
    }

    open spec fn overflows(self, rhs: Rhs) -> bool {
        self is Some && <T as OptionCheckedDiv<Rhs, Rhs>>::overflows(self->0, rhs)
    }

    open spec fn quotient(self, rhs: Rhs) -> Self::Output {
        <T as OptionCheckedDiv<Rhs, Rhs>>::quotient(self->0, rhs)
    }

    fn opt_checked_div(self, rhs: Rhs) -> (r: Result<Option<Self::Output>, Error>) {
        match self {
            Some(inner_self) => <T as OptionCheckedDiv<Rhs, Rhs>>::opt_checked_div(
                inner_self,
                rhs,
            ),
            None => Ok(None),
        }
    }
}

impl<T, InnerRhs> OptionCheckedDiv<Option<InnerRhs>, InnerRhs> for Option<T> where
    T: OptionOperations + OptionCheckedDiv<InnerRhs, InnerRhs>,
 {
    type Output = <T as OptionCheckedDiv<InnerRhs, InnerRhs>>::Output;

    open spec fn absent(self, rhs: Option<InnerRhs>) -> bool {
        self is None || rhs is None || <T as OptionCheckedDiv<InnerRhs, InnerRhs>>::absent(
            self->0,
            rhs->0,
        )
    }

    open spec fn divisor_is_zero(self, rhs: Option<InnerRhs>) -> bool {
        self is Some && rhs is Some && <T as OptionCheckedDiv<InnerRhs, InnerRhs>>::divisor_is_zero(
            self->0,
            rhs->0,
        )
    }

    open spec fn overflows(self, rhs: Option<InnerRhs>) -> bool {
        self is Some && rhs is Some && <T as OptionCheckedDiv<InnerRhs, InnerRhs>>::overflows(
            self->0,
            rhs->0,
        )
    }

    open spec fn quotient(self, rhs: Option<InnerRhs>) -> Self::Output {
        <T as OptionCheckedDiv<InnerRhs, InnerRhs>>::quotient(self->0, rhs->0)
    }

    fn opt_checked_div(self, rhs: Option<InnerRhs>) -> (r: Result<Option<Self::Output>, Error>) {
        match (self, rhs) {
            (Some(inner_self), Some(inner_rhs)) => <T as OptionCheckedDiv<
                InnerRhs,
                InnerRhs,
            >>::opt_checked_div(inner_self, inner_rhs),
            _ => Ok(None),
        }
    }
}

impl<T, InnerRhs> OptionCheckedDiv<&Option<InnerRhs>, InnerRhs> for Option<T> where
    T: OptionOperations + OptionCheckedDiv<InnerRhs, InnerRhs>,
    InnerRhs: Copy,
 {
    type Output = <T as OptionCheckedDiv<InnerRhs, InnerRhs>>::Output;

    open spec fn absent(self, rhs: &Option<InnerRhs>) -> bool {
        self is None || (*rhs) is None || <T as OptionCheckedDiv<InnerRhs, InnerRhs>>::absent(
            self->0,
            (*rhs)->0,
        )
    }

    open spec fn divisor_is_zero(self, rhs: &Option<InnerRhs>) -> bool {
        self is Some && (*rhs) is Some && <T as OptionCheckedDiv<
            InnerRhs,
            InnerRhs,
        >>::divisor_is_zero(self->0, (*rhs)->0)
    }

    open spec fn overflows(self, rhs: &Option<InnerRhs>) -> bool {
        self is Some && (*rhs) is Some && <T as OptionCheckedDiv<InnerRhs, InnerRhs>>::overflows(
            self->0,
            (*rhs)->0,
        )
    }

    open spec fn quotient(self, rhs: &Option<InnerRhs>) -> Self::Output {
        <T as OptionCheckedDiv<InnerRhs, InnerRhs>>::quotient(self->0, (*rhs)->0)
    }

    fn opt_checked_div(self, rhs: &Option<InnerRhs>) -> (r: Result<Option<Self::Output>, Error>) {
        match (self, rhs) {
            (Some(inner_self), Some(inner_rhs)) => <T as OptionCheckedDiv<
                InnerRhs,
                InnerRhs,
            >>::opt_checked_div(inner_self, *inner_rhs),
            _ => Ok(None),
        }
    }
}

/// Trait for values and `Option`s overflowing division.
///
/// A concrete type implements the base shape
/// `OptionOverflowingDiv<Rhs, Rhs>`; the blanket implementations then
/// cover:
///
/// - `OptionOverflowingDiv<Option<InnerRhs>>` for `T`.
/// - `OptionOverflowingDiv<&Option<InnerRhs>>` for `T`.
/// - `OptionOverflowingDiv<Rhs>` for `Option<T>`.
/// - `OptionOverflowingDiv<Option<InnerRhs>>` for `Option<T>`.
/// - `OptionOverflowingDiv<&Option<InnerRhs>>` for `Option<T>`.
pub trait OptionOverflowingDiv<Rhs, InnerRhs>: Sized {
    /// The resulting inner type after applying the operation.
    type Output;

    /// At least one operand is an absent optional.
    spec fn absent(self, rhs: Rhs) -> bool;

    /// Both operands are present and the divisor is not the additive
    /// identity.
    spec fn defined(self, rhs: Rhs) -> bool;

    /// The exact quotient of the two present operands is not
    /// representable in the output type.
    spec fn overflows(self, rhs: Rhs) -> bool;

    /// The wrapped quotient of the two present operands.
    spec fn quotient(self, rhs: Rhs) -> Self::Output;

    /// Returns a tuple of the division along with a boolean indicating
    /// whether an arithmetic overflow would occur. If an overflow would
    /// have occurred then the wrapped value is returned.
    ///
    /// Returns `None` if at least one argument is `None`. A zero divisor
    /// is ruled out by the precondition: this variant redefines only the
    /// overflow behaviour of the division, not its zero-divisor
    /// behaviour.
    #[must_use]
    fn opt_overflowing_div(self, rhs: Rhs) -> (r: Option<(Self::Output, bool)>)
        requires
            self.absent(rhs) || self.defined(rhs),
        ensures
            self.absent(rhs) <==> r is None,
            self.defined(rhs) ==> r == Some((self.quotient(rhs), self.overflows(rhs))),
    ;
}

impl<T, InnerRhs> OptionOverflowingDiv<Option<InnerRhs>, InnerRhs> for T where
    T: OptionOperations + OptionOverflowingDiv<InnerRhs, InnerRhs>,
 {
    type Output = <T as OptionOverflowingDiv<InnerRhs, InnerRhs>>::Output;

    open spec fn absent(self, rhs: Option<InnerRhs>) -> bool {
        rhs is None || <T as OptionOverflowingDiv<InnerRhs, InnerRhs>>::absent(self, rhs->0)
    }

    open spec fn defined(self, rhs: Option<InnerRhs>) -> bool {
        rhs is Some && <T as OptionOverflowingDiv<InnerRhs, InnerRhs>>::defined(self, rhs->0)
    }

    open spec fn overflows(self, rhs: Option<InnerRhs>) -> bool {
        rhs is Some && <T as OptionOverflowingDiv<InnerRhs, InnerRhs>>::overflows(self, rhs->0)
    }

    open spec fn quotient(self, rhs: Option<InnerRhs>) -> Self::Output {
        <T as OptionOverflowingDiv<InnerRhs, InnerRhs>>::quotient(self, rhs->0)
    }

    fn opt_overflowing_div(self, rhs: Option<InnerRhs>) -> (r: Option<(Self::Output, bool)>) {
        match rhs {
            Some(inner_rhs) => <T as OptionOverflowingDiv<InnerRhs, InnerRhs>>::opt_overflowing_div(
                self,
                inner_rhs,
            ),
            None => None,
        }
    }
}

impl<T, InnerRhs> OptionOverflowingDiv<&Option<InnerRhs>, InnerRhs> for T where
    T: OptionOperations + OptionOverflowingDiv<InnerRhs, InnerRhs>,
    InnerRhs: Copy,
 {
    type Output = <T as OptionOverflowingDiv<InnerRhs, InnerRhs>>::Output;

    open spec fn absent(self, rhs: &Option<InnerRhs>) -> bool {
        (*rhs) is None || <T as OptionOverflowingDiv<InnerRhs, InnerRhs>>::absent(self, (*rhs)->0)
    }

    open spec fn defined(self, rhs: &Option<InnerRhs>) -> bool {
        (*rhs) is Some && <T as OptionOverflowingDiv<InnerRhs, InnerRhs>>::defined(self, (*rhs)->0)
    }

    open spec fn overflows(self, rhs: &Option<InnerRhs>) -> bool {
        (*rhs) is Some && <T as OptionOverflowingDiv<InnerRhs, InnerRhs>>::overflows(
            self,
            (*rhs)->0,
        )
    }

    open spec fn quotient(self, rhs: &Option<InnerRhs>) -> Self::Output {
        <T as OptionOverflowingDiv<InnerRhs, InnerRhs>>::quotient(self, (*rhs)->0)
    }

    fn opt_overflowing_div(self, rhs: &Option<InnerRhs>) -> (r: Option<(Self::Output, bool)>) {
        match rhs {
            Some(inner_rhs) => <T as OptionOverflowingDiv<InnerRhs, InnerRhs>>::opt_overflowing_div(
                self,
                *inner_rhs,
            ),
            None => None,
        }
    }
}

impl<T, Rhs> OptionOverflowingDiv<Rhs, Rhs> for Option<T> where
    T: OptionOperations + OptionOverflowingDiv<Rhs, Rhs>,
 {
    type Output = <T as OptionOverflowingDiv<Rhs, Rhs>>::Output;

    open spec fn absent(self, rhs: Rhs) -> bool {
        self is None || <T as OptionOverflowingDiv<Rhs, Rhs>>::absent(self->0, rhs)
    }

    open spec fn defined(self, rhs: Rhs) -> bool {
        self is Some && <T as OptionOverflowingDiv<Rhs, Rhs>>::defined(self->0, rhs)
    }

    open spec fn overflows(self, rhs: Rhs) -> bool {
        self is Some && <T as OptionOverflowingDiv<Rhs, Rhs>>::overflows(self->0, rhs)
    }

    open spec fn quotient(self, rhs: Rhs) -> Self::Output {
        <T as OptionOverflowingDiv<Rhs, Rhs>>::quotient(self->0, rhs)
    }

    fn opt_overflowing_div(self, rhs: Rhs) -> (r: Option<(Self::Output, bool)>) {
        match self {
            Some(inner_self) => <T as OptionOverflowingDiv<Rhs, Rhs>>::opt_overflowing_div(
                inner_self,
                rhs,
            ),
            None => None,
        }
    }
}

impl<T, InnerRhs> OptionOverflowingDiv<Option<InnerRhs>, InnerRhs> for Option<T> where
    T: OptionOperations + OptionOverflowingDiv<InnerRhs, InnerRhs>,
 {
    type Output = <T as OptionOverflowingDiv<InnerRhs, InnerRhs>>::Output;

    open spec fn absent(self, rhs: Option<InnerRhs>) -> bool {
        self is None || rhs is None || <T as OptionOverflowingDiv<InnerRhs, InnerRhs>>::absent(
            self->0,
            rhs->0,
        )
    }

    open spec fn defined(self, rhs: Option<InnerRhs>) -> bool {
        self is Some && rhs is Some && <T as OptionOverflowingDiv<InnerRhs, InnerRhs>>::defined(
            self->0,
            rhs->0,
        )
    }

    open spec fn overflows(self, rhs: Option<InnerRhs>) -> bool {
        self is Some && rhs is Some && <T as OptionOverflowingDiv<InnerRhs, InnerRhs>>::overflows(
            self->0,
            rhs->0,
        )
    }

    open spec fn quotient(self, rhs: Option<InnerRhs>) -> Self::Output {
        <T as OptionOverflowingDiv<InnerRhs, InnerRhs>>::quotient(self->0, rhs->0)
    }

    fn opt_overflowing_div(self, rhs: Option<InnerRhs>) -> (r: Option<(Self::Output, bool)>) {
        match (self, rhs) {
            (Some(inner_self), Some(inner_rhs)) => <T as OptionOverflowingDiv<
                InnerRhs,
                InnerRhs,
            >>::opt_overflowing_div(inner_self, inner_rhs),
            _ => None,
        }
    }
}

impl<T, InnerRhs> OptionOverflowingDiv<&Option<InnerRhs>, InnerRhs> for Option<T> where
    T: OptionOperations + OptionOverflowingDiv<InnerRhs, InnerRhs>,
    InnerRhs: Copy,
 {
    type Output = <T as OptionOverflowingDiv<InnerRhs, InnerRhs>>::Output;

    open spec fn absent(self, rhs: &Option<InnerRhs>) -> bool {
        self is None || (*rhs) is None || <T as OptionOverflowingDiv<InnerRhs, InnerRhs>>::absent(
            self->0,
            (*rhs)->0,
        )
    }

    open spec fn defined(self, rhs: &Option<InnerRhs>) -> bool {
        self is Some && (*rhs) is Some && <T as OptionOverflowingDiv<InnerRhs, InnerRhs>>::defined(
            self->0,
            (*rhs)->0,
        )
    }

    open spec fn overflows(self, rhs: &Option<InnerRhs>) -> bool {
        self is Some && (*rhs) is Some && <T as OptionOverflowingDiv<
            InnerRhs,
            InnerRhs,
        >>::overflows(self->0, (*rhs)->0)
    }

    open spec fn quotient(self, rhs: &Option<InnerRhs>) -> Self::Output {
        <T as OptionOverflowingDiv<InnerRhs, InnerRhs>>::quotient(self->0, (*rhs)->0)
    }

    fn opt_overflowing_div(self, rhs: &Option<InnerRhs>) -> (r: Option<(Self::Output, bool)>) {
        match (self, rhs) {
            (Some(inner_self), Some(inner_rhs)) => <T as OptionOverflowingDiv<
                InnerRhs,
                InnerRhs,
            >>::opt_overflowing_div(inner_self, *inner_rhs),
            _ => None,
        }
    }
}

/// Trait for values and `Option`s wrapping division.
///
/// A concrete type implements the base shape `OptionWrappingDiv<Rhs, Rhs>`;
/// the blanket implementations then cover:
///
/// - `OptionWrappingDiv<Option<InnerRhs>>` for `T`.
/// - `OptionWrappingDiv<&Option<InnerRhs>>` for `T`.
/// - `OptionWrappingDiv<Rhs>` for `Option<T>`.
/// - `OptionWrappingDiv<Option<InnerRhs>>` for `Option<T>`.
/// - `OptionWrappingDiv<&Option<InnerRhs>>` for `Option<T>`.
pub trait OptionWrappingDiv<Rhs, InnerRhs>: Sized {
    /// The resulting inner type after applying the operation.
    type Output;

    /// At least one operand is an absent optional.
    spec fn absent(self, rhs: Rhs) -> bool;

    /// Both operands are present and the divisor is not the additive
    /// identity.
    spec fn defined(self, rhs: Rhs) -> bool;

    /// The wrapped quotient of the two present operands.
    spec fn quotient(self, rhs: Rhs) -> Self::Output;

    /// Computes the division, wrapping around at the numeric bounds
    /// instead of overflowing.
    ///
    /// Returns `None` if at least one argument is `None`. A zero divisor
    /// is ruled out by the precondition: this variant redefines only the
    /// overflow behaviour of the division, not its zero-divisor
    /// behaviour.
    #[must_use]
    fn opt_wrapping_div(self, rhs: Rhs) -> (r: Option<Self::Output>)
        requires
            self.absent(rhs) || self.defined(rhs),
        ensures
            self.absent(rhs) <==> r is None,
            self.defined(rhs) ==> r == Some(self.quotient(rhs)),
    ;
}

impl<T, InnerRhs> OptionWrappingDiv<Option<InnerRhs>, InnerRhs> for T where
    T: OptionOperations + OptionWrappingDiv<InnerRhs, InnerRhs>,
 {
    type Output = <T as OptionWrappingDiv<InnerRhs, InnerRhs>>::Output;

    open spec fn absent(self, rhs: Option<InnerRhs>) -> bool {
        rhs is None || <T as OptionWrappingDiv<InnerRhs, InnerRhs>>::absent(self, rhs->0)
    }

    open spec fn defined(self, rhs: Option<InnerRhs>) -> bool {
        rhs is Some && <T as OptionWrappingDiv<InnerRhs, InnerRhs>>::defined(self, rhs->0)
    }

    open spec fn quotient(self, rhs: Option<InnerRhs>) -> Self::Output {
        <T as OptionWrappingDiv<InnerRhs, InnerRhs>>::quotient(self, rhs->0)
    }

    fn opt_wrapping_div(self, rhs: Option<InnerRhs>) -> (r: Option<Self::Output>) {
        match rhs {
            Some(inner_rhs) => <T as OptionWrappingDiv<InnerRhs, InnerRhs>>::opt_wrapping_div(
                self,
                inner_rhs,
            ),
            None => None,
        }
    }
}

impl<T, InnerRhs> OptionWrappingDiv<&Option<InnerRhs>, InnerRhs> for T where
    T: OptionOperations + OptionWrappingDiv<InnerRhs, InnerRhs>,
    InnerRhs: Copy,
 {
    type Output = <T as OptionWrappingDiv<InnerRhs, InnerRhs>>::Output;

    open spec fn absent(self, rhs: &Option<InnerRhs>) -> bool {
        (*rhs) is None || <T as OptionWrappingDiv<InnerRhs, InnerRhs>>::absent(self, (*rhs)->0)
    }

    open spec fn defined(self, rhs: &Option<InnerRhs>) -> bool {
        (*rhs) is Some && <T as OptionWrappingDiv<InnerRhs, InnerRhs>>::defined(self, (*rhs)->0)
    }

    open spec fn quotient(self, rhs: &Option<InnerRhs>) -> Self::Output {
        <T as OptionWrappingDiv<InnerRhs, InnerRhs>>::quotient(self, (*rhs)->0)
    }

    fn opt_wrapping_div(self, rhs: &Option<InnerRhs>) -> (r: Option<Self::Output>) {
        match rhs {
            Some(inner_rhs) => <T as OptionWrappingDiv<InnerRhs, InnerRhs>>::opt_wrapping_div(
                self,
                *inner_rhs,
            ),
            None => None,
        }
    }
}

impl<T, Rhs> OptionWrappingDiv<Rhs, Rhs> for Option<T> where
    T: OptionOperations + OptionWrappingDiv<Rhs, Rhs>,
 {
    type Output = <T as OptionWrappingDiv<Rhs, Rhs>>::Output;

    open spec fn absent(self, rhs: Rhs) -> bool {
        self is None || <T as OptionWrappingDiv<Rhs, Rhs>>::absent(self->0, rhs)
    }

    open spec fn defined(self, rhs: Rhs) -> bool {
        self is Some && <T as OptionWrappingDiv<Rhs, Rhs>>::defined(self->0, rhs)
    }

    open spec fn quotient(self, rhs: Rhs) -> Self::Output {
        <T as OptionWrappingDiv<Rhs, Rhs>>::quotient(self->0, rhs)
    }

    fn opt_wrapping_div(self, rhs: Rhs) -> (r: Option<Self::Output>) {
        match self {
            Some(inner_self) => <T as OptionWrappingDiv<Rhs, Rhs>>::opt_wrapping_div(
                inner_self,
                rhs,
            ),
            None => None,
        }
    }
}

impl<T, InnerRhs> OptionWrappingDiv<Option<InnerRhs>, InnerRhs> for Option<T> where
    T: OptionOperations + OptionWrappingDiv<InnerRhs, InnerRhs>,
 {
    type Output = <T as OptionWrappingDiv<InnerRhs, InnerRhs>>::Output;

    open spec fn absent(self, rhs: Option<InnerRhs>) -> bool {
        self is None || rhs is None || <T as OptionWrappingDiv<InnerRhs, InnerRhs>>::absent(
            self->0,
            rhs->0,
        )
    }

    open spec fn defined(self, rhs: Option<InnerRhs>) -> bool {
        self is Some && rhs is Some && <T as OptionWrappingDiv<InnerRhs, InnerRhs>>::defined(
            self->0,
            rhs->0,
        )
    }

    open spec fn quotient(self, rhs: Option<InnerRhs>) -> Self::Output {
        <T as OptionWrappingDiv<InnerRhs, InnerRhs>>::quotient(self->0, rhs->0)
    }

    fn opt_wrapping_div(self, rhs: Option<InnerRhs>) -> (r: Option<Self::Output>) {
        match (self, rhs) {
            (Some(inner_self), Some(inner_rhs)) => <T as OptionWrappingDiv<
                InnerRhs,
                InnerRhs,
            >>::opt_wrapping_div(inner_self, inner_rhs),
            _ => None,
        }
    }
}

impl<T, InnerRhs> OptionWrappingDiv<&Option<InnerRhs>, InnerRhs> for Option<T> where
    T: OptionOperations + OptionWrappingDiv<InnerRhs, InnerRhs>,
    InnerRhs: Copy,
 {
    type Output = <T as OptionWrappingDiv<InnerRhs, InnerRhs>>::Output;

    open spec fn absent(self, rhs: &Option<InnerRhs>) -> bool {
        self is None || (*rhs) is None || <T as OptionWrappingDiv<InnerRhs, InnerRhs>>::absent(
            self->0,
            (*rhs)->0,
        )
    }

    open spec fn defined(self, rhs: &Option<InnerRhs>) -> bool {
        self is Some && (*rhs) is Some && <T as OptionWrappingDiv<InnerRhs, InnerRhs>>::defined(
            self->0,
            (*rhs)->0,
        )
    }

    open spec fn quotient(self, rhs: &Option<InnerRhs>) -> Self::Output {
        <T as OptionWrappingDiv<InnerRhs, InnerRhs>>::quotient(self->0, (*rhs)->0)
    }

    fn opt_wrapping_div(self, rhs: &Option<InnerRhs>) -> (r: Option<Self::Output>) {
        match (self, rhs) {
            (Some(inner_self), Some(inner_rhs)) => <T as OptionWrappingDiv<
                InnerRhs,
                InnerRhs,
            >>::opt_wrapping_div(inner_self, *inner_rhs),
            _ => None,
        }
    }
}

} // verus!
