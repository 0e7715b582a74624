//! A duration payload for the checked division.
//!
//! [`Duration`] is a fixed-point span of time — whole seconds and a
//! sub-second nanosecond remainder — that opts into
//! [`OptionCheckedDiv`] against an unsigned count, the way the
//! primitive integers do. The quotient truncates at nanosecond
//! resolution, and a divisor of at least one can only shrink the span,
//! so the division never overflows: the only failure it can report is
//! a zero divisor.

use vstd::prelude::*;
use vstd::arithmetic::div_mod::lemma_div_is_ordered;
use vstd::arithmetic::div_mod::lemma_div_nonincreasing;
use vstd::arithmetic::div_mod::lemma_div_pos_is_pos;
use vstd::arithmetic::div_mod::lemma_fundamental_div_mod;
use vstd::arithmetic::div_mod::lemma_fundamental_div_mod_converse;
use vstd::arithmetic::div_mod::lemma_mod_division_less_than_divisor;
use vstd::arithmetic::mul::lemma_mul_upper_bound;
use crate::Error;
use crate::OptionOperations;
use crate::div::OptionCheckedDiv;

verus! {

/// Nanoseconds in one second.
pub const NANOS_PER_SEC: u32 = 1_000_000_000;

/// A span of time: whole seconds and a sub-second nanosecond remainder.
#[derive(Clone, Copy, Debug, PartialEq, Eq, Structural)]
pub struct Duration {
    secs: u64,
    nanos: u32,
}

impl Duration {
    /// The nanosecond part stays below one second.
    #[verifier::type_invariant]
    pub closed spec fn wf(self) -> bool {
        self.nanos < NANOS_PER_SEC
    }

    /// The whole span counted in nanoseconds.
    pub closed spec fn total_nanos(self) -> int {
        self.secs * (NANOS_PER_SEC as int) + self.nanos
    }

    /// The truncating quotient by a count: the span whose nanosecond
    /// total is `total_nanos() / rhs`, split back into whole seconds
    /// and a remainder.
    pub closed spec fn quotient_by(self, rhs: u32) -> Duration
        recommends
            rhs != 0,
    {
        Duration {
            secs: ((self.total_nanos() / (rhs as int)) / (NANOS_PER_SEC as int)) as u64,
            nanos: ((self.total_nanos() / (rhs as int)) % (NANOS_PER_SEC as int)) as u32,
        }
    }

    /// Builds the span of `secs` whole seconds plus `nanos` nanoseconds.
    /// The nanosecond part must already be normalized below one second.
    pub fn new(secs: u64, nanos: u32) -> (r: Duration)
        requires
            nanos < NANOS_PER_SEC,
        ensures
            r.total_nanos() == secs * (NANOS_PER_SEC as int) + nanos,
    {
        Duration { secs, nanos }
    }

    /// The whole-second part of the span.
    pub fn as_secs(&self) -> (r: u64)
        ensures
            r == self.total_nanos() / (NANOS_PER_SEC as int),
    {
        proof {
            use_type_invariant(&*self);
            lemma_fundamental_div_mod_converse(
                self.total_nanos(),
                NANOS_PER_SEC as int,
                self.secs as int,
                self.nanos as int,
            );
        }
        self.secs
    }

    /// The sub-second part of the span, in nanoseconds.
    pub fn subsec_nanos(&self) -> (r: u32)
        ensures
            r == self.total_nanos() % (NANOS_PER_SEC as int),
    {
        proof {
            use_type_invariant(&*self);
            lemma_fundamental_div_mod_converse(
                self.total_nanos(),
                NANOS_PER_SEC as int,
                self.secs as int,
                self.nanos as int,
            );
        }
        self.nanos
    }
}

/// Dividing a span divides its nanosecond total: the quotient by a
/// non-zero count carries exactly `total_nanos() / rhs` nanoseconds,
/// and is itself a normalized span.
pub proof fn lemma_quotient_by_total(d: Duration, rhs: u32)
    requires
        rhs != 0,
        d.wf(),
    ensures
        d.quotient_by(rhs).total_nanos() == d.total_nanos() / (rhs as int),
        d.quotient_by(rhs).wf(),
{
    let t = d.total_nanos();
    let q = t / (rhs as int);
    lemma_fundamental_div_mod_converse(
        t,
        NANOS_PER_SEC as int,
        d.secs as int,
        d.nanos as int,
    );
    lemma_div_nonincreasing(t, rhs as int);
    lemma_div_pos_is_pos(t, rhs as int);
    lemma_div_pos_is_pos(q, NANOS_PER_SEC as int);
    lemma_div_is_ordered(q, t, NANOS_PER_SEC as int);
    lemma_mod_division_less_than_divisor(q, NANOS_PER_SEC as int);
    lemma_fundamental_div_mod(q, NANOS_PER_SEC as int);
}

impl OptionOperations for Duration {

}

impl OptionCheckedDiv<u32, u32> for Duration {
    type Output = Duration;

    open spec fn absent(self, rhs: u32) -> bool {
        false
    }

    open spec fn divisor_is_zero(self, rhs: u32) -> bool {
        rhs == 0
    }

    open spec fn overflows(self, rhs: u32) -> bool {
        false
    }

    open spec fn quotient(self, rhs: u32) -> Duration {
        self.quotient_by(rhs)
    }

    fn opt_checked_div(self, rhs: u32) -> (r: Result<Option<Duration>, Error>) {
        if rhs == 0 {
            return Err(Error::DivisionByZero);
        }
        proof {
            use_type_invariant(&self);
            lemma_mul_upper_bound(
                self.secs as int,
                u64::MAX as int,
                NANOS_PER_SEC as int,
                NANOS_PER_SEC as int,
            );
            lemma_quotient_by_total(self, rhs);
            lemma_fundamental_div_mod_converse(
                self.total_nanos(),
                NANOS_PER_SEC as int,
                self.secs as int,
                self.nanos as int,
            );
            lemma_div_nonincreasing(self.total_nanos(), rhs as int);
            lemma_div_pos_is_pos(self.total_nanos(), rhs as int);
            let q = self.total_nanos() / (rhs as int);
            lemma_div_pos_is_pos(q, NANOS_PER_SEC as int);
            lemma_div_is_ordered(q, self.total_nanos(), NANOS_PER_SEC as int);
            lemma_mod_division_less_than_divisor(q, NANOS_PER_SEC as int);
        }
        let total: u128 = (self.secs as u128) * (NANOS_PER_SEC as u128) + (self.nanos as u128);
        let q: u128 = total / (rhs as u128);
        let secs: u64 = (q / (NANOS_PER_SEC as u128)) as u64;
        let nanos: u32 = (q % (NANOS_PER_SEC as u128)) as u32;
        Ok(Some(Duration { secs, nanos }))
    }
}

} // verus!
