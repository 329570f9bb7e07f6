//! The Wyrand generator: a 64-bit state advanced by a constant and mixed by a
//! 128-bit multiplication.
use crate::rand64::{self, concat_u64, Rand64};
use crate::arith::{lemma_halves_u128, lemma_mul_u64_fits};
use crate::{Rand, Seeded};
use vstd::prelude::*;

verus! {

/// The Wyrand generator. The field is its state word.
pub struct Wyrand(pub u64);

/// The state increment.
pub const WY_INCREMENT: u64 = 0xA076_1D64_78BD_642F;

/// The constant mixed into the multiplier.
pub const WY_MIX: u64 = 0xE703_7ED1_A0B4_28DB;

/// The state after one draw from state `s`.
pub open spec fn wy_state(s: u64) -> u64 {
    ((s as nat + WY_INCREMENT as nat) % 0x1_0000_0000_0000_0000) as u64
}

/// The word drawn from state `s`: the product of the new state and the new state mixed
/// with [`WY_MIX`], its two halves combined by exclusive or.
pub open spec fn wy_output(s: u64) -> u64 {
    let t = wy_state(s);
    let p = t as nat * (t ^ WY_MIX) as nat;
    ((p % 0x1_0000_0000_0000_0000) as u64) ^ ((p / 0x1_0000_0000_0000_0000) as u64)
}

impl Default for Wyrand {
    fn default() -> (r: Self)
        ensures
            r.0 == 0,
    {
        Wyrand(0)
    }
}

impl Rand64 for Wyrand {
    open spec fn peek_word(&self) -> u64 {
        wy_output(self.0)
    }

    open spec fn after_word(&self) -> Self {
        Wyrand(wy_state(self.0))
    }

    fn next_word(&mut self) -> u64 {
        self.0 = self.0.wrapping_add(WY_INCREMENT);
        let t = self.0;
        proof {
            lemma_mul_u64_fits(t, t ^ WY_MIX);
        }
        let r = (t as u128) * ((t ^ WY_MIX) as u128);
        proof {
            lemma_halves_u128(r);
        }
        #[verifier::truncate]
        let lo = r as u64;
        #[verifier::truncate]
        let hi = (r >> 64) as u64;
        lo ^ hi
    }
}

impl Rand for Wyrand {
    open spec fn peek_u16(&self) -> u16 {
        self.peek_word() as u16
    }

    open spec fn after_u16(&self) -> Self {
        self.after_word()
    }

    open spec fn peek_u32(&self) -> u32 {
        self.peek_word() as u32
    }

    open spec fn after_u32(&self) -> Self {
        self.after_word()
    }

    open spec fn peek_u64(&self) -> u64 {
        self.peek_word()
    }

    open spec fn after_u64(&self) -> Self {
        self.after_word()
    }

    open spec fn peek_u128(&self) -> u128 {
        concat_u64(self.peek_word(), self.after_word().peek_word())
    }

    open spec fn after_u128(&self) -> Self {
        self.after_word().after_word()
    }

    fn next_u16(&mut self) -> u16 {
        rand64::next_u16(self)
    }

    fn next_u32(&mut self) -> u32 {
        rand64::next_u32(self)
    }

    fn next_u64(&mut self) -> u64 {
        rand64::next_u64(self)
    }

    fn next_u128(&mut self) -> u128 {
        rand64::next_u128(self)
    }
}

impl Seeded for Wyrand {
    type R = Wyrand;

    open spec fn seeded(seed: u64) -> Wyrand {
        Wyrand(seed)
    }

    fn seed(seed: u64) -> Wyrand {
        Wyrand(seed)
    }
}

} // verus!
