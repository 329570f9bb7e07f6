//! Spans of time and draws from ranges of them.
//!
//! A [`TimeSpan`] holds whole seconds and the nanoseconds below a second. A draw from a
//! range of spans works on their lengths in nanoseconds and rebuilds a span from the
//! result.
use crate::arith::lemma_halves_u128;
use crate::lim::{bits_u128, eventually_accepts, next_lim_u128, sampled};
use crate::{Rand, RandRange};
use core::ops::Range;
use vstd::prelude::*;

verus! {

/// Nanoseconds in a second.
pub const NANOS_PER_SEC: u32 = 1_000_000_000;

/// A span of time: `secs` seconds and `nanos` nanoseconds, with `nanos` below a second.
#[derive(Clone, Copy, Debug, PartialEq, Eq, Structural)]
pub struct TimeSpan {
    secs: u64,
    nanos: u32,
}

/// The length in nanoseconds of the span `(secs, nanos)`.
pub open spec fn span_nanos(v: (u64, u32)) -> nat {
    v.0 as nat * NANOS_PER_SEC as nat + v.1 as nat
}

impl View for TimeSpan {
    /// Whole seconds and nanoseconds below a second.
    type V = (u64, u32);

    closed spec fn view(&self) -> (u64, u32) {
        (self.secs, self.nanos)
    }
}

impl TimeSpan {
    #[verifier::type_invariant]
    spec fn wf(self) -> bool {
        self.nanos < NANOS_PER_SEC
    }

    /// The span of `secs` seconds and `nanos` nanoseconds.
    pub fn new(secs: u64, nanos: u32) -> (r: TimeSpan)
        requires
            nanos < NANOS_PER_SEC,
        ensures
            r@ == (secs, nanos),
    {
        TimeSpan { secs, nanos }
    }

    /// The whole seconds.
    pub fn as_secs(&self) -> (r: u64)
        ensures
            r == self@.0,
    {
        self.secs
    }

    /// The nanoseconds below a second.
    pub fn subsec_nanos(&self) -> (r: u32)
        ensures
            r == self@.1,
            r < NANOS_PER_SEC,
    {
        proof {
            use_type_invariant(self);
        }
        self.nanos
    }

    /// The length in nanoseconds.
    pub fn as_nanos(&self) -> (r: u128)
        ensures
            r as nat == span_nanos(self@),
            (r as nat) < (u64::MAX as nat + 1) * NANOS_PER_SEC as nat,
    {
        proof {
            use_type_invariant(self);
            assert(self.secs as nat * 1_000_000_000 <= u64::MAX as nat * 1_000_000_000)
                by (nonlinear_arith)
                requires
                    self.secs <= u64::MAX,
            ;
        }
        self.secs as u128 * NANOS_PER_SEC as u128 + self.nanos as u128
    }
}

/// The span of `nanos` nanoseconds. The seconds wrap around at `2^64`, as a cast to `u64`
/// does; for every length that a span can have the result is exact.
pub fn from_nanos(nanos: u128) -> (r: TimeSpan)
    ensures
        r@.0 as nat == (nanos as nat / NANOS_PER_SEC as nat) % 0x1_0000_0000_0000_0000,
        r@.1 as nat == nanos as nat % NANOS_PER_SEC as nat,
        nanos as nat / NANOS_PER_SEC as nat <= u64::MAX ==> span_nanos(r@) == nanos,
{
    let q = nanos / NANOS_PER_SEC as u128;
    proof {
        lemma_halves_u128(q);
    }
    let secs = #[verifier::truncate] (q as u64);
    let sub = (nanos % NANOS_PER_SEC as u128) as u32;
    TimeSpan { secs, nanos: sub }
}

impl<R: Rand> RandRange<TimeSpan> for R {
    open spec fn range_ends(&self, range: Range<TimeSpan>) -> bool {
        span_nanos(range.start@) < span_nanos(range.end@) ==> eventually_accepts(
            *self,
            bits_u128((span_nanos(range.end@) - span_nanos(range.start@)) as u128),
            (span_nanos(range.end@) - span_nanos(range.start@)) as nat,
        )
    }

    open spec fn range_outcome(&self, range: Range<TimeSpan>, r: TimeSpan, after: Self) -> bool {
        let lo = span_nanos(range.start@);
        let hi = span_nanos(range.end@);
        if lo >= hi {
            r == range.start && after == *self
        } else {
            &&& lo <= span_nanos(r@) < hi
            &&& sampled(
                *self,
                bits_u128((hi - lo) as u128),
                (hi - lo) as nat,
                (span_nanos(r@) - lo) as nat,
                after,
            )
        }
    }

    /// Draws a length below the span's in nanoseconds and adds it to the start.
    fn next_range(&mut self, range: Range<TimeSpan>) -> TimeSpan {
        let lo = range.start.as_nanos();
        let hi = range.end.as_nanos();
        if lo >= hi {
            return range.start;
        }
        let span = hi - lo;
        match next_lim_u128(self, span) {
            Ok(v) => {
                proof {
                    vstd::arithmetic::div_mod::lemma_multiply_divide_lt(
                        (lo + v) as int,
                        NANOS_PER_SEC as int,
                        u64::MAX as int + 1,
                    );
                }
                from_nanos(lo + v)
            },
            Err(_) => range.start,
        }
    }
}

} // verus!
