//! Small, allocation-free random number generation.
//!
//! A generator implements [`Rand`]: it produces raw words of 16, 32, 64 and 128 bits.
//! Bounded draws ([`RandLim`], [`RandRange`]) and Bernoulli draws build on those words.
//!
//! Every generator is modelled as a deterministic state machine: for each width, the
//! spec functions `peek_uN` give the word that the next draw of that width returns, and
//! `after_uN` the generator once that draw is done.
use vstd::prelude::*;

mod arith;
pub mod clock_seed;
pub mod counter;
pub mod duration;
pub mod example_support;
pub mod lim;
pub mod mock;
pub mod rand128;
pub mod rand64;
pub mod range;
pub mod splitmix;
pub mod uniform;
pub mod wyrand;
pub mod xorshift;

pub use counter::Counter;
pub use duration::{from_nanos, TimeSpan};
pub use lim::{cutoff_u128, RandLim};
pub use mock::TestMock;
pub use range::RandRange;
pub use splitmix::SplitMix;
pub use wyrand::Wyrand;
pub use xorshift::Xorshift;

verus! {

/// The default, recommended generator.
pub type StdRand = Wyrand;

/// The conditions under which a draw is refused.
#[derive(Clone, Copy, Debug, PartialEq, Eq, Structural)]
pub enum RandError {
    /// A probability outside `[0, 1]`.
    OutOfRange,
    /// A limit of zero: no value lies in `0..0`.
    ZeroLimit,
}

/// A source of random words.
///
/// An implementation computes one width natively and derives the others from it (see
/// [`rand64`] and [`rand128`]); the spec functions say, for each width, which word the next
/// draw returns and what the generator becomes.
pub trait Rand: Sized {
    /// The word returned by the next 16-bit draw.
    spec fn peek_u16(&self) -> u16;

    /// The generator after a 16-bit draw.
    spec fn after_u16(&self) -> Self;

    /// The word returned by the next 32-bit draw.
    spec fn peek_u32(&self) -> u32;

    /// The generator after a 32-bit draw.
    spec fn after_u32(&self) -> Self;

    /// The word returned by the next 64-bit draw.
    spec fn peek_u64(&self) -> u64;

    /// The generator after a 64-bit draw.
    spec fn after_u64(&self) -> Self;

    /// The word returned by the next 128-bit draw.
    spec fn peek_u128(&self) -> u128;

    /// The generator after a 128-bit draw.
    spec fn after_u128(&self) -> Self;

    /// Returns the next random `u16`.
    fn next_u16(&mut self) -> (r: u16)
        ensures
            r == old(self).peek_u16(),
            *final(self) == old(self).after_u16(),
    ;

    /// Returns the next random `u32`.
    fn next_u32(&mut self) -> (r: u32)
        ensures
            r == old(self).peek_u32(),
            *final(self) == old(self).after_u32(),
    ;

    /// Returns the next random `u64`.
    fn next_u64(&mut self) -> (r: u64)
        ensures
            r == old(self).peek_u64(),
            *final(self) == old(self).after_u64(),
    ;

    /// Returns the next random `u128`.
    fn next_u128(&mut self) -> (r: u128)
        ensures
            r == old(self).peek_u128(),
            *final(self) == old(self).after_u128(),
    ;

    /// Returns the next random `usize`: the low bits of a 64-bit draw.
    fn next_usize(&mut self) -> (r: usize)
        ensures
            r == old(self).peek_u64() as usize,
            *final(self) == old(self).after_u64(),
    {
        self.next_u64() as usize
    }

    /// Returns `true` with probability `p`.
    ///
    /// One 64-bit word `w` is drawn; the answer is `w < cutoff`, where the cutoff is
    /// `floor(p * u64::MAX)`. The word `u64::MAX` is first lowered to `u64::MAX - 1`, so
    /// that `p = 1` is `true` whatever the draw.
    fn next_bool(&mut self, p: Probability) -> (r: bool)
        ensures
            r == bernoulli(old(self).peek_u64(), p@),
            *final(self) == old(self).after_u64(),
    {
        let cutoff = p.cutoff();
        let mut next = self.next_u64();
        if next == u64::MAX {
            next = u64::MAX - 1;
        }
        next < cutoff
    }
}

/// The outcome of a Bernoulli draw on word `w` with the given cutoff.
pub open spec fn bernoulli(w: u64, cutoff: u64) -> bool {
    if w == u64::MAX {
        u64::MAX - 1 < cutoff
    } else {
        w < cutoff
    }
}

/// The number of distinct words of a width of `bits` bits.
pub open spec fn modulus(bits: nat) -> nat {
    if bits == 16 {
        0x1_0000
    } else if bits == 32 {
        0x1_0000_0000
    } else if bits == 64 {
        0x1_0000_0000_0000_0000
    } else {
        0x1_0000_0000_0000_0000 * 0x1_0000_0000_0000_0000
    }
}

/// The word returned by the next draw of `bits` bits (16, 32, 64; any other value: 128).
pub open spec fn word<R: Rand>(r: R, bits: nat) -> nat {
    if bits == 16 {
        r.peek_u16() as nat
    } else if bits == 32 {
        r.peek_u32() as nat
    } else if bits == 64 {
        r.peek_u64() as nat
    } else {
        r.peek_u128() as nat
    }
}

/// The generator after one draw of `bits` bits.
pub open spec fn step<R: Rand>(r: R, bits: nat) -> R {
    if bits == 16 {
        r.after_u16()
    } else if bits == 32 {
        r.after_u32()
    } else if bits == 64 {
        r.after_u64()
    } else {
        r.after_u128()
    }
}

/// The generator after `n` draws of `bits` bits.
pub open spec fn skip<R: Rand>(r: R, bits: nat, n: nat) -> R
    decreases n,
{
    if n == 0 {
        r
    } else {
        step(skip(r, bits, (n - 1) as nat), bits)
    }
}

/// The words returned by the next `n` draws of `bits` bits, in order.
pub open spec fn words<R: Rand>(r: R, bits: nat, n: nat) -> Seq<nat> {
    Seq::new(n, |i: int| word(skip(r, bits, i as nat), bits))
}

/// The means for seeding a generator.
pub trait Seeded {
    type R: Rand;

    /// The generator that a seed gives.
    spec fn seeded(seed: u64) -> Self::R;

    /// Creates a new generator from the given seed.
    fn seed(seed: u64) -> (r: Self::R)
        ensures
            r == Self::seeded(seed),
    ;
}

/// A probability in `[0, 1]`, held as the cutoff word that a Bernoulli draw compares
/// against: `floor(p * u64::MAX)`.
#[derive(Clone, Copy, Debug, PartialEq, Eq, Structural)]
pub struct Probability {
    cutoff: u64,
}

impl View for Probability {
    type V = u64;

    closed spec fn view(&self) -> u64 {
        self.cutoff
    }
}

impl Probability {
    /// The probability whose cutoff word is `cutoff`.
    pub fn from_cutoff(cutoff: u64) -> (r: Probability)
        ensures
            r@ == cutoff,
    {
        Probability { cutoff }
    }

    /// The cutoff word: a draw below it counts as a success.
    pub fn cutoff(&self) -> (r: u64)
        ensures
            r == self@,
    {
        self.cutoff
    }
}

/// A Bernoulli draw with cutoff zero (probability 0) is `false` for every word, and one
/// with cutoff `u64::MAX` (probability 1) is `true` for every word, `u64::MAX` included.
pub proof fn lemma_bernoulli_extremes(w: u64)
    ensures
        !bernoulli(w, 0),
        bernoulli(w, u64::MAX),
{
}

/// Two generators made from the same seed yield the same words, of every width, in the
/// same order.
pub proof fn lemma_seeded_determinism<S: Seeded>(seed: u64, a: S::R, b: S::R, bits: nat, n: nat)
    requires
        a == S::seeded(seed),
        b == S::seeded(seed),
    ensures
        words(a, bits, n) == words(b, bits, n),
{
}

} // verus!
