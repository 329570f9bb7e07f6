//! Draws from a half-open range `start..end`.
//!
//! A draw takes a number below the span `end - start` (see [`crate::lim`]) and adds it to
//! `start`. A range with `start >= end` holds no number: the draw then returns `start`
//! and consumes nothing. The same policy holds for ranges of [`TimeSpan`](crate::TimeSpan).
use crate::lim::{
    bits_u128, eventually_accepts, next_lim_u128, next_lim_u16, next_lim_u32, next_lim_u64,
    sampled,
};
use crate::Rand;
use core::ops::Range;
use vstd::prelude::*;

verus! {

/// Draws from a half-open range, for each unsigned width.
pub trait RandRange<N>: Sized {
    /// Whether a draw from `range` is sure to end: the range is empty, or some word that the
    /// generator will yield is accepted for its span.
    spec fn range_ends(&self, range: Range<N>) -> bool;

    /// Whether a draw from `range` returns `r` and leaves `after`.
    spec fn range_outcome(&self, range: Range<N>, r: N, after: Self) -> bool;

    /// Returns a uniformly distributed number in `range`; `range.start` when the range is
    /// empty or inverted.
    fn next_range(&mut self, range: Range<N>) -> (r: N)
        requires
            old(self).range_ends(range),
        ensures
            old(self).range_outcome(range, r, *final(self)),
    ;
}

impl<R: Rand> RandRange<u16> for R {
    open spec fn range_ends(&self, range: Range<u16>) -> bool {
        range.start < range.end ==> eventually_accepts(
            *self,
            16,
            (range.end - range.start) as nat,
        )
    }

    open spec fn range_outcome(&self, range: Range<u16>, r: u16, after: Self) -> bool {
        if range.start >= range.end {
            r == range.start && after == *self
        } else {
            &&& range.start <= r < range.end
            &&& sampled(
                *self,
                16,
                (range.end - range.start) as nat,
                (r - range.start) as nat,
                after,
            )
        }
    }

    fn next_range(&mut self, range: Range<u16>) -> u16 {
        if range.start >= range.end {
            return range.start;
        }
        let span = range.end - range.start;
        match next_lim_u16(self, span) {
            Ok(v) => range.start + v,
            Err(_) => range.start,
        }
    }
}

impl<R: Rand> RandRange<u32> for R {
    open spec fn range_ends(&self, range: Range<u32>) -> bool {
        range.start < range.end ==> eventually_accepts(
            *self,
            32,
            (range.end - range.start) as nat,
        )
    }

    open spec fn range_outcome(&self, range: Range<u32>, r: u32, after: Self) -> bool {
        if range.start >= range.end {
            r == range.start && after == *self
        } else {
            &&& range.start <= r < range.end
            &&& sampled(
                *self,
                32,
                (range.end - range.start) as nat,
                (r - range.start) as nat,
                after,
            )
        }
    }

    fn next_range(&mut self, range: Range<u32>) -> u32 {
        if range.start >= range.end {
            return range.start;
        }
        let span = range.end - range.start;
        match next_lim_u32(self, span) {
            Ok(v) => range.start + v,
            Err(_) => range.start,
        }
    }
}

impl<R: Rand> RandRange<u64> for R {
    open spec fn range_ends(&self, range: Range<u64>) -> bool {
        range.start < range.end ==> eventually_accepts(
            *self,
            64,
            (range.end - range.start) as nat,
        )
    }

    open spec fn range_outcome(&self, range: Range<u64>, r: u64, after: Self) -> bool {
        if range.start >= range.end {
            r == range.start && after == *self
        } else {
            &&& range.start <= r < range.end
            &&& sampled(
                *self,
                64,
                (range.end - range.start) as nat,
                (r - range.start) as nat,
                after,
            )
        }
    }

    fn next_range(&mut self, range: Range<u64>) -> u64 {
        if range.start >= range.end {
            return range.start;
        }
        let span = range.end - range.start;
        match next_lim_u64(self, span) {
            Ok(v) => range.start + v,
            Err(_) => range.start,
        }
    }
}

impl<R: Rand> RandRange<u128> for R {
    open spec fn range_ends(&self, range: Range<u128>) -> bool {
        range.start < range.end ==> eventually_accepts(
            *self,
            bits_u128((range.end - range.start) as u128),
            (range.end - range.start) as nat,
        )
    }

    open spec fn range_outcome(&self, range: Range<u128>, r: u128, after: Self) -> bool {
        if range.start >= range.end {
            r == range.start && after == *self
        } else {
            &&& range.start <= r < range.end
            &&& sampled(
                *self,
                bits_u128((range.end - range.start) as u128),
                (range.end - range.start) as nat,
                (r - range.start) as nat,
                after,
            )
        }
    }

    fn next_range(&mut self, range: Range<u128>) -> u128 {
        if range.start >= range.end {
            return range.start;
        }
        let span = range.end - range.start;
        match next_lim_u128(self, span) {
            Ok(v) => range.start + v,
            Err(_) => range.start,
        }
    }
}

impl<R: Rand> RandRange<usize> for R {
    open spec fn range_ends(&self, range: Range<usize>) -> bool {
        range.start < range.end ==> eventually_accepts(
            *self,
            64,
            (range.end - range.start) as nat,
        )
    }

    open spec fn range_outcome(&self, range: Range<usize>, r: usize, after: Self) -> bool {
        if range.start >= range.end {
            r == range.start && after == *self
        } else {
            &&& range.start <= r < range.end
            &&& sampled(*self, 64, (range.end - range.start) as nat, (r - range.start) as nat, after)
        }
    }

    /// Draws with the 64-bit method.
    fn next_range(&mut self, range: Range<usize>) -> usize {
        if range.start >= range.end {
            return range.start;
        }
        let span = range.end - range.start;
        match next_lim_u64(self, span as u64) {
            Ok(v) => range.start + v as usize,
            Err(_) => range.start,
        }
    }
}

} // verus!
