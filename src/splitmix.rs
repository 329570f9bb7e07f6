//! The SplitMix generator: a 64-bit state mixed by two multiplications.
use crate::arith::lemma_mul_u64_fits;
use crate::rand64::{self, concat_u64, Rand64};
use crate::{Rand, Seeded};
use vstd::prelude::*;

verus! {

/// The SplitMix generator. The field is its state word; a zero state yields only zeros,
/// so neither [`Default`] nor [`Seeded::seed`] makes one.
pub struct SplitMix(pub u64);

/// The first multiplier.
pub const SM_MIX1: u64 = 0xff51_afd7_ed55_8ccd;

/// The second multiplier.
pub const SM_MIX2: u64 = 0xc4ce_b9fe_1a85_ec53;

/// The 128-bit product formed from state `s` in the first mixing step.
pub open spec fn sm_product(s: u64) -> u128 {
    ((s ^ (s >> 32u64)) as nat * SM_MIX1 as nat) as u128
}

/// The state after one draw from state `s`: the low half of the first product.
pub open spec fn sm_state(s: u64) -> u64 {
    sm_product(s) as u64
}

/// The word drawn from state `s`: the first product, folded and multiplied again.
pub open spec fn sm_output(s: u64) -> u64 {
    let p = sm_product(s);
    let y = (p ^ (p >> 32u128)) as u64;
    ((y as nat * SM_MIX2 as nat) as u128) as u64
}

/// The state that a seed gives: the seed itself, but for zero, which is replaced by
/// `u64::MAX >> 1`.
pub open spec fn sm_seeded(seed: u64) -> u64 {
    if seed == 0 {
        0x7FFF_FFFF_FFFF_FFFF
    } else {
        seed
    }
}

impl Default for SplitMix {
    fn default() -> (r: Self)
        ensures
            r.0 == 1,
    {
        SplitMix(1)
    }
}

impl Rand64 for SplitMix {
    open spec fn peek_word(&self) -> u64 {
        sm_output(self.0)
    }

    open spec fn after_word(&self) -> Self {
        SplitMix(sm_state(self.0))
    }

    fn next_word(&mut self) -> u64 {
        let x = self.0;
        let mut s = x as u128;
        let a = (s ^ (s >> 32u128)) as u64;
        assert(a == x ^ (x >> 32u64)) by (bit_vector)
            requires
                s == x as u128,
                a == (s ^ (s >> 32u128)) as u64,
        ;
        proof {
            lemma_mul_u64_fits(a, SM_MIX1);
        }
        s = (a as u128) * (SM_MIX1 as u128);
        self.0 = s as u64;
        let y = (s ^ (s >> 32u128)) as u64;
        proof {
            lemma_mul_u64_fits(y, SM_MIX2);
        }
        s = (y as u128) * (SM_MIX2 as u128);
        s as u64
    }
}

impl Rand for SplitMix {
    open spec fn peek_u16(&self) -> u16 {
        self.peek_word() as u16
    }

    open spec fn after_u16(&self) -> Self {
        self.after_word()
    }

    open spec fn peek_u32(&self) -> u32 {
        self.peek_word() as u32
    }

    open spec fn after_u32(&self) -> Self {
        self.after_word()
    }

    open spec fn peek_u64(&self) -> u64 {
        self.peek_word()
    }

    open spec fn after_u64(&self) -> Self {
        self.after_word()
    }

    open spec fn peek_u128(&self) -> u128 {
        concat_u64(self.peek_word(), self.after_word().peek_word())
    }

    open spec fn after_u128(&self) -> Self {
        self.after_word().after_word()
    }

    fn next_u16(&mut self) -> u16 {
        rand64::next_u16(self)
    }

    fn next_u32(&mut self) -> u32 {
        rand64::next_u32(self)
    }

    fn next_u64(&mut self) -> u64 {
        rand64::next_u64(self)
    }

    fn next_u128(&mut self) -> u128 {
        rand64::next_u128(self)
    }
}

impl Seeded for SplitMix {
    type R = SplitMix;

    open spec fn seeded(seed: u64) -> SplitMix {
        SplitMix(sm_seeded(seed))
    }

    fn seed(seed: u64) -> SplitMix {
        let half = u64::MAX >> 1u64;
        assert(half == 0x7FFF_FFFF_FFFF_FFFF) by (bit_vector)
            requires
                half == u64::MAX >> 1u64,
        ;
        SplitMix(
            if seed == 0 {
                half
            } else {
                seed
            },
        )
    }
}

} // verus!
