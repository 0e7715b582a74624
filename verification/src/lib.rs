//! Optional-arithmetic adapters for division.
//!
//! The traits here let division and its checked, overflowing and wrapping
//! variants be applied to values that may be wrapped in an `Option`,
//! propagating "no value" instead of forcing the caller to unwrap at each
//! call site. A type opts in with the [`OptionOperations`] marker; blanket
//! implementations then make each operator callable with any mix of bare
//! value, optional value, and reference-to-optional value on either side.

use vstd::prelude::*;

pub mod arith;
pub mod div;
pub mod duration;
pub mod laws;
pub mod my_int;
pub mod prim;

verus! {

/// Marker for types that opt into the optional-arithmetic adapters.
///
/// The blanket implementations in [`div`] cover `T` and `Option<T>` for
/// every `T` implementing this marker. It must never be implemented for
/// an `Option` itself: the adapters add the optional layers themselves,
/// and the blanket coverage relies on the two sets of implementing types
/// staying disjoint.
pub trait OptionOperations {

}

/// Reason a checked operation failed on two present operands.
///
/// Absence of an operand is not an error: the checked operations report it
/// as `Ok(None)`. The two variants here are the genuine arithmetic
/// failures, and a checked division reports exactly one of them:
/// a zero divisor is detected before overflow is ever assessed.
#[derive(Clone, Copy, Debug, PartialEq, Eq, Structural)]
pub enum Error {
    /// The divisor was the additive identity.
    DivisionByZero,
    /// The exact result is not representable in the output type.
    Overflow,
}

} // verus!
