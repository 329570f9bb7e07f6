//! A wrap-around 64-bit counter: each draw returns the state and then increments it.
//! Useful for seeding and testing.
use crate::rand64::{self, concat_u64, Rand64};
use crate::{Rand, Seeded};
use vstd::prelude::*;

verus! {

/// A wrap-around counter. The field is the next word it returns.
#[derive(Debug)]
pub struct Counter(pub u64);

/// The successor of `s`, wrapping from `u64::MAX` to zero.
pub open spec fn wrapping_succ(s: u64) -> u64 {
    if s == u64::MAX {
        0
    } else {
        (s + 1) as u64
    }
}

impl Counter {
    /// A counter whose first word is `seed`.
    pub fn new(seed: u64) -> (r: Self)
        ensures
            r.0 == seed,
    {
        Counter(seed)
    }
}

impl Default for Counter {
    fn default() -> (r: Self)
        ensures
            r.0 == 0,
    {
        Counter(0)
    }
}

impl Rand64 for Counter {
    open spec fn peek_word(&self) -> u64 {
        self.0
    }

    open spec fn after_word(&self) -> Self {
        Counter(wrapping_succ(self.0))
    }

    fn next_word(&mut self) -> u64 {
        let current = self.0;
        self.0 = current.wrapping_add(1);
        current
    }
}

impl Rand for Counter {
    open spec fn peek_u16(&self) -> u16 {
        self.peek_word() as u16
    }

    open spec fn after_u16(&self) -> Self {
        self.after_word()
    }

    open spec fn peek_u32(&self) -> u32 {
        self.peek_word() as u32
    }

    open spec fn after_u32(&self) -> Self {
        self.after_word()
    }

    open spec fn peek_u64(&self) -> u64 {
        self.peek_word()
    }

    open spec fn after_u64(&self) -> Self {
        self.after_word()
    }

    open spec fn peek_u128(&self) -> u128 {
        concat_u64(self.peek_word(), self.after_word().peek_word())
    }

    open spec fn after_u128(&self) -> Self {
        self.after_word().after_word()
    }

    fn next_u16(&mut self) -> u16 {
        rand64::next_u16(self)
    }

    fn next_u32(&mut self) -> u32 {
        rand64::next_u32(self)
    }

    fn next_u64(&mut self) -> u64 {
        rand64::next_u64(self)
    }

    fn next_u128(&mut self) -> u128 {
        rand64::next_u128(self)
    }
}

impl Seeded for Counter {
    type R = Counter;

    open spec fn seeded(seed: u64) -> Counter {
        Counter(seed)
    }

    fn seed(seed: u64) -> Counter {
        Counter(seed)
    }
}

} // verus!
