//! Width derivation for generators whose native word is 64 bits wide.
//!
//! Narrower words keep the low bits of one 64-bit draw; a 128-bit word concatenates two
//! draws, the first in the high half. A generator implements [`Rand64`] and its
//! [`Rand`](crate::Rand) methods delegate to the functions here.
use vstd::prelude::*;

verus! {

/// A generator whose native word is 64 bits wide.
pub trait Rand64: Sized {
    /// The word returned by the next native draw.
    spec fn peek_word(&self) -> u64;

    /// The generator after one native draw.
    spec fn after_word(&self) -> Self;

    /// Draws one native word.
    fn next_word(&mut self) -> (r: u64)
        ensures
            r == old(self).peek_word(),
            *final(self) == old(self).after_word(),
    ;
}

/// The 128-bit word made of `hi` in the high half and `lo` in the low half.
pub open spec fn concat_u64(hi: u64, lo: u64) -> u128 {
    (hi as nat * 0x1_0000_0000_0000_0000 + lo as nat) as u128
}

/// Returns the next random `u16`: the low 16 bits of one native draw.
pub fn next_u16<R: Rand64>(rand: &mut R) -> (r: u16)
    ensures
        r == old(rand).peek_word() as u16,
        r as nat == old(rand).peek_word() as nat % 0x1_0000,
        *final(rand) == old(rand).after_word(),
{
    let w = rand.next_word();
    assert((w as u16) as nat == w as nat % 0x1_0000) by (bit_vector);
    w as u16
}

/// Returns the next random `u32`: the low 32 bits of one native draw.
pub fn next_u32<R: Rand64>(rand: &mut R) -> (r: u32)
    ensures
        r == old(rand).peek_word() as u32,
        r as nat == old(rand).peek_word() as nat % 0x1_0000_0000,
        *final(rand) == old(rand).after_word(),
{
    let w = rand.next_word();
    assert((w as u32) as nat == w as nat % 0x1_0000_0000) by (bit_vector);
    w as u32
}

/// Returns the next random `u64`: one native draw.
pub fn next_u64<R: Rand64>(rand: &mut R) -> (r: u64)
    ensures
        r == old(rand).peek_word(),
        *final(rand) == old(rand).after_word(),
{
    rand.next_word()
}

/// Returns the next random `u128`: two native draws, the first in the high half.
pub fn next_u128<R: Rand64>(rand: &mut R) -> (r: u128)
    ensures
        r == concat_u64(old(rand).peek_word(), old(rand).after_word().peek_word()),
        *final(rand) == old(rand).after_word().after_word(),
{
    let hi = rand.next_word();
    let lo = rand.next_word();
    let r = (hi as u128) << 64 | (lo as u128);
    assert(r == (hi as nat * 0x1_0000_0000_0000_0000 + lo as nat) as u128) by (bit_vector)
        requires
            r == (hi as u128) << 64 | (lo as u128),
    ;
    r
}

} // verus!
