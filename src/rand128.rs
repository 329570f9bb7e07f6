//! Width derivation for generators whose native word is 128 bits wide.
//!
//! Every narrower word keeps the low bits of one 128-bit draw. A generator implements
//! [`Rand128`] and its [`Rand`](crate::Rand) methods delegate to the functions here.
use vstd::prelude::*;

verus! {

/// A generator whose native word is 128 bits wide.
pub trait Rand128: Sized {
    /// The word returned by the next native draw.
    spec fn peek_word(&self) -> u128;

    /// The generator after one native draw.
    spec fn after_word(&self) -> Self;

    /// Draws one native word.
    fn next_word(&mut self) -> (r: u128)
        ensures
            r == old(self).peek_word(),
            *final(self) == old(self).after_word(),
    ;
}

/// Returns the next random `u16`: the low 16 bits of one native draw.
pub fn next_u16<R: Rand128>(rand: &mut R) -> (r: u16)
    ensures
        r == old(rand).peek_word() as u16,
        *final(rand) == old(rand).after_word(),
{
    rand.next_word() as u16
}

/// Returns the next random `u32`: the low 32 bits of one native draw.
pub fn next_u32<R: Rand128>(rand: &mut R) -> (r: u32)
    ensures
        r == old(rand).peek_word() as u32,
        *final(rand) == old(rand).after_word(),
{
    rand.next_word() as u32
}

/// Returns the next random `u64`: the low 64 bits of one native draw.
pub fn next_u64<R: Rand128>(rand: &mut R) -> (r: u64)
    ensures
        r == old(rand).peek_word() as u64,
        *final(rand) == old(rand).after_word(),
{
    rand.next_word() as u64
}

/// Returns the next random `u128`: one native draw.
pub fn next_u128<R: Rand128>(rand: &mut R) -> (r: u128)
    ensures
        r == old(rand).peek_word(),
        *final(rand) == old(rand).after_word(),
{
    rand.next_word()
}

} // verus!
