//! The Xorshift generator: a 64-bit state scrambled by shifts and exclusive ors.
use crate::rand64::{self, concat_u64, Rand64};
use crate::{Rand, Seeded};
use vstd::prelude::*;

verus! {

/// The Xorshift generator. The field is its state word; a zero state yields only zeros,
/// so neither [`Default`] nor [`Seeded::seed`] makes one.
pub struct Xorshift(pub u64);

/// The state after one draw from state `s`.
pub open spec fn xs_state(s: u64) -> u64 {
    let a = s ^ (s << 13u64);
    a ^ (a >> 7u64)
}

/// The word drawn from state `s`.
pub open spec fn xs_output(s: u64) -> u64 {
    let b = xs_state(s);
    b ^ (b << 17u64)
}

/// The state that a seed gives: the seed itself, but for zero, which is replaced by
/// `u64::MAX >> 1`.
pub open spec fn xs_seeded(seed: u64) -> u64 {
    if seed == 0 {
        0x7FFF_FFFF_FFFF_FFFF
    } else {
        seed
    }
}

impl Default for Xorshift {
    fn default() -> (r: Self)
        ensures
            r.0 == 1,
    {
        Xorshift(1)
    }
}

impl Rand64 for Xorshift {
    open spec fn peek_word(&self) -> u64 {
        xs_output(self.0)
    }

    open spec fn after_word(&self) -> Self {
        Xorshift(xs_state(self.0))
    }

    fn next_word(&mut self) -> u64 {
        let mut s = self.0;
        s ^= s << 13u64;
        s ^= s >> 7u64;
        self.0 = s;
        s ^= s << 17u64;
        s
    }
}

impl Rand for Xorshift {
    open spec fn peek_u16(&self) -> u16 {
        self.peek_word() as u16
    }

    open spec fn after_u16(&self) -> Self {
        self.after_word()
    }

    open spec fn peek_u32(&self) -> u32 {
        self.peek_word() as u32
    }

    open spec fn after_u32(&self) -> Self {
        self.after_word()
    }

    open spec fn peek_u64(&self) -> u64 {
        self.peek_word()
    }

    open spec fn after_u64(&self) -> Self {
        self.after_word()
    }

    open spec fn peek_u128(&self) -> u128 {
        concat_u64(self.peek_word(), self.after_word().peek_word())
    }

    open spec fn after_u128(&self) -> Self {
        self.after_word().after_word()
    }

    fn next_u16(&mut self) -> u16 {
        rand64::next_u16(self)
    }

    fn next_u32(&mut self) -> u32 {
        rand64::next_u32(self)
    }

    fn next_u64(&mut self) -> u64 {
        rand64::next_u64(self)
    }

    fn next_u128(&mut self) -> u128 {
        rand64::next_u128(self)
    }
}

impl Seeded for Xorshift {
    type R = Xorshift;

    open spec fn seeded(seed: u64) -> Xorshift {
        Xorshift(xs_seeded(seed))
    }

    fn seed(seed: u64) -> Xorshift {
        let half = u64::MAX >> 1u64;
        assert(half == 0x7FFF_FFFF_FFFF_FFFF) by (bit_vector)
            requires
                half == u64::MAX >> 1u64,
        ;
        Xorshift(
            if seed == 0 {
                half
            } else {
                seed
            },
        )
    }
}

} // verus!
