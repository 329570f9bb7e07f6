//! Unbiased draws below a limit.
//!
//! For widths of 16, 32 and 64 bits a draw uses Lemire's multiply-and-reject method: a
//! word `x` of `W` bits is scaled to `x * lim`, a `2W`-bit product; its high half is the
//! result unless its low half falls below `2^W mod lim`, in which case `x` is rejected
//! and another word is drawn. For 128 bits, where no wider product exists, a word `x` is
//! accepted when it lies below the largest multiple of `lim` that fits, and the result is
//! `x mod lim`. A limit that fits in 64 bits is drawn with the 64-bit method.
//!
//! Either way every value below the limit is returned by the same number of accepted
//! words, so no value is favoured.
use crate::arith::{
    lemma_halves_u128, lemma_halves_u32, lemma_halves_u64, lemma_neg_mod, lemma_scaled_word,
};
use crate::{modulus, skip, step, word, Rand, RandError};
use vstd::prelude::*;

verus! {

/// Whether Lemire's method accepts word `x` for limit `lim`, with `m` possible words.
pub open spec fn lemire_accepts(x: nat, lim: nat, m: nat) -> bool {
    (x * lim) % m >= m % lim
}

/// The value that Lemire's method returns for an accepted word `x`.
pub open spec fn lemire_value(x: nat, lim: nat, m: nat) -> nat {
    (x * lim) / m
}

/// Whether the modulo method accepts word `x` for limit `lim`, with `m` possible words:
/// `x` lies below the largest multiple of `lim` that is at most `m`.
pub open spec fn modulo_accepts(x: nat, lim: nat, m: nat) -> bool {
    x < m - m % lim
}

/// Whether a draw of `bits` bits accepts word `x` for limit `lim`: the modulo method for
/// 128 bits, Lemire's method for narrower words.
pub open spec fn accepts(x: nat, lim: nat, bits: nat) -> bool {
    if bits == 128 {
        modulo_accepts(x, lim, modulus(bits))
    } else {
        lemire_accepts(x, lim, modulus(bits))
    }
}

/// The value returned for an accepted word `x`.
pub open spec fn outcome(x: nat, lim: nat, bits: nat) -> nat {
    if bits == 128 {
        x % lim
    } else {
        lemire_value(x, lim, modulus(bits))
    }
}

/// Whether the `k`-th draw of `bits` bits from `r` (counting from zero) is accepted.
pub open spec fn accepted_at<R: Rand>(r: R, bits: nat, lim: nat, k: nat) -> bool {
    accepts(word(skip(r, bits, k), bits), lim, bits)
}

/// Whether some draw of `bits` bits from `r` is accepted for limit `lim`: the condition
/// under which the rejection loop ends.
pub open spec fn eventually_accepts<R: Rand>(r: R, bits: nat, lim: nat) -> bool {
    exists|k: nat| accepted_at(r, bits, lim, k)
}

/// The draw below `lim` from `r` ends at the `k`-th word: that word is the first accepted,
/// `v` is its value and `after` the generator once `k + 1` words are drawn.
pub open spec fn sampled_at<R: Rand>(r: R, bits: nat, lim: nat, k: nat, v: nat, after: R) -> bool {
    &&& accepted_at(r, bits, lim, k)
    &&& forall|j: nat| j < k ==> !accepted_at(r, bits, lim, j)
    &&& v == outcome(word(skip(r, bits, k), bits), lim, bits)
    &&& after == skip(r, bits, k + 1)
}

/// The draw below `lim` from `r`, with words of `bits` bits, returns `v` and leaves `after`.
pub open spec fn sampled<R: Rand>(r: R, bits: nat, lim: nat, v: nat, after: R) -> bool {
    exists|k: nat| sampled_at(r, bits, lim, k, v, after)
}

/// The width of the words that a 128-bit draw below `lim` consumes.
pub open spec fn bits_u128(lim: u128) -> nat {
    if lim <= u64::MAX as u128 {
        64
    } else {
        128
    }
}

/// One more draw from a generator that has made `n` draws.
pub proof fn lemma_skip_step<R: Rand>(r: R, bits: nat, n: nat)
    ensures
        skip(r, bits, n + 1) == step(skip(r, bits, n), bits),
        skip(r, bits, 0) == r,
{
}

/// When `lim` divides the number of words of `bits` bits (for a power of two up to the
/// width), every word is accepted: a draw below `lim` takes exactly one word.
pub proof fn lemma_divisor_accepts_all<R: Rand>(r: R, bits: nat, lim: nat)
    requires
        0 < lim,
        modulus(bits) % lim == 0,
    ensures
        forall|k: nat| accepted_at(r, bits, lim, k),
        eventually_accepts(r, bits, lim),
{
    assert forall|k: nat| accepted_at(r, bits, lim, k) by {
        let x = word(skip(r, bits, k), bits);
        assert(x < modulus(bits));
    }
    assert(accepted_at(r, bits, lim, 0));
}

/// Returns a uniformly distributed `u16` below `lim`, drawing 16-bit words with Lemire's
/// method. Fails with [`RandError::ZeroLimit`], drawing nothing, when `lim` is zero. The
/// rejection loop ends because some word the generator will yield is accepted: the
/// precondition asks for that (see [`lemma_divisor_accepts_all`] for limits that divide
/// `2^16`).
pub fn next_lim_u16<R: Rand>(rand: &mut R, lim: u16) -> (r: Result<u16, RandError>)
    requires
        lim != 0 ==> eventually_accepts(*old(rand), 16, lim as nat),
    ensures
        lim == 0 ==> r == Err::<u16, RandError>(RandError::ZeroLimit) && *final(rand) == *old(rand),
        lim != 0 ==> r is Ok && r->Ok_0 < lim && sampled(
            *old(rand),
            16,
            lim as nat,
            r->Ok_0 as nat,
            *final(rand),
        ),
{
    if lim == 0 {
        return Err(RandError::ZeroLimit);
    }
    let ghost start = *rand;
    let ghost l = lim as nat;
    let ghost m: nat = 0x1_0000;
    let ghost k0 = choose|k: nat| accepted_at(start, 16, l, k);
    let ghost mut n: nat = 0;
    proof {
        lemma_skip_step(start, 16, 0);
        lemma_neg_mod(l, m);
    }
    let x = rand.next_u16();
    proof {
        lemma_scaled_word(x as nat, l, m);
    }
    let mut full = (x as u32) * (lim as u32);
    proof {
        lemma_halves_u32(full);
    }
    let mut low = #[verifier::truncate] (full as u16);
    if low < lim {
        let cutoff = (u16::MAX - lim + 1) % lim;
        while low < cutoff
            invariant
                0 < l,
                l == lim as nat,
                m == 0x1_0000,
                m % l < l,
                cutoff as nat == m % l,
                *rand == skip(start, 16, n + 1),
                full as nat == word(skip(start, 16, n), 16) * l,
                low as nat == full as nat % m,
                forall|j: nat| j < n ==> !accepted_at(start, 16, l, j),
                n <= k0,
                accepted_at(start, 16, l, k0),
            decreases k0 - n,
        {
            proof {
                lemma_skip_step(start, 16, n + 1);
            }
            let x = rand.next_u16();
            proof {
                lemma_scaled_word(x as nat, l, m);
            }
            full = (x as u32) * (lim as u32);
            proof {
                lemma_halves_u32(full);
            }
            low = #[verifier::truncate] (full as u16);
            proof {
                n = n + 1;
            }
        }
    }
    proof {
        lemma_scaled_word(word(skip(start, 16, n), 16), l, m);
        lemma_halves_u32(full);
    }
    let r = #[verifier::truncate] ((full >> 16) as u16);
    proof {
        assert(sampled_at(start, 16, l, n, r as nat, *rand));
    }
    Ok(r)
}

/// Returns a uniformly distributed `u32` below `lim`, drawing 32-bit words with Lemire's
/// method. Fails with [`RandError::ZeroLimit`], drawing nothing, when `lim` is zero. The
/// rejection loop ends because some word the generator will yield is accepted: the
/// precondition asks for that (see [`lemma_divisor_accepts_all`] for limits that divide
/// `2^32`).
pub fn next_lim_u32<R: Rand>(rand: &mut R, lim: u32) -> (r: Result<u32, RandError>)
    requires
        lim != 0 ==> eventually_accepts(*old(rand), 32, lim as nat),
    ensures
        lim == 0 ==> r == Err::<u32, RandError>(RandError::ZeroLimit) && *final(rand) == *old(rand),
        lim != 0 ==> r is Ok && r->Ok_0 < lim && sampled(
            *old(rand),
            32,
            lim as nat,
            r->Ok_0 as nat,
            *final(rand),
        ),
{
    if lim == 0 {
        return Err(RandError::ZeroLimit);
    }
    let ghost start = *rand;
    let ghost l = lim as nat;
    let ghost m: nat = 0x1_0000_0000;
    let ghost k0 = choose|k: nat| accepted_at(start, 32, l, k);
    let ghost mut n: nat = 0;
    proof {
        lemma_skip_step(start, 32, 0);
        lemma_neg_mod(l, m);
    }
    let x = rand.next_u32();
    proof {
        lemma_scaled_word(x as nat, l, m);
    }
    let mut full = (x as u64) * (lim as u64);
    proof {
        lemma_halves_u64(full);
    }
    let mut low = #[verifier::truncate] (full as u32);
    if low < lim {
        let cutoff = (u32::MAX - lim + 1) % lim;
        while low < cutoff
            invariant
                0 < l,
                l == lim as nat,
                m == 0x1_0000_0000,
                m % l < l,
                cutoff as nat == m % l,
                *rand == skip(start, 32, n + 1),
                full as nat == word(skip(start, 32, n), 32) * l,
                low as nat == full as nat % m,
                forall|j: nat| j < n ==> !accepted_at(start, 32, l, j),
                n <= k0,
                accepted_at(start, 32, l, k0),
            decreases k0 - n,
        {
            proof {
                lemma_skip_step(start, 32, n + 1);
            }
            let x = rand.next_u32();
            proof {
                lemma_scaled_word(x as nat, l, m);
            }
            full = (x as u64) * (lim as u64);
            proof {
                lemma_halves_u64(full);
            }
            low = #[verifier::truncate] (full as u32);
            proof {
                n = n + 1;
            }
        }
    }
    proof {
        lemma_scaled_word(word(skip(start, 32, n), 32), l, m);
        lemma_halves_u64(full);
    }
    let r = #[verifier::truncate] ((full >> 32) as u32);
    proof {
        assert(sampled_at(start, 32, l, n, r as nat, *rand));
    }
    Ok(r)
}

/// Returns a uniformly distributed `u64` below `lim`, drawing 64-bit words with Lemire's
/// method. Fails with [`RandError::ZeroLimit`], drawing nothing, when `lim` is zero. The
/// rejection loop ends because some word the generator will yield is accepted: the
/// precondition asks for that (see [`lemma_divisor_accepts_all`] for limits that divide
/// `2^64`).
pub fn next_lim_u64<R: Rand>(rand: &mut R, lim: u64) -> (r: Result<u64, RandError>)
    requires
        lim != 0 ==> eventually_accepts(*old(rand), 64, lim as nat),
    ensures
        lim == 0 ==> r == Err::<u64, RandError>(RandError::ZeroLimit) && *final(rand) == *old(rand),
        lim != 0 ==> r is Ok && r->Ok_0 < lim && sampled(
            *old(rand),
            64,
            lim as nat,
            r->Ok_0 as nat,
            *final(rand),
        ),
{
    if lim == 0 {
        return Err(RandError::ZeroLimit);
    }
    let ghost start = *rand;
    let ghost l = lim as nat;
    let ghost m: nat = 0x1_0000_0000_0000_0000;
    let ghost k0 = choose|k: nat| accepted_at(start, 64, l, k);
    let ghost mut n: nat = 0;
    proof {
        lemma_skip_step(start, 64, 0);
        lemma_neg_mod(l, m);
    }
    let x = rand.next_u64();
    proof {
        lemma_scaled_word(x as nat, l, m);
    }
    let mut full = (x as u128) * (lim as u128);
    proof {
        lemma_halves_u128(full);
    }
    let mut low = #[verifier::truncate] (full as u64);
    if low < lim {
        let cutoff = (u64::MAX - lim + 1) % lim;
        while low < cutoff
            invariant
                0 < l,
                l == lim as nat,
                m == 0x1_0000_0000_0000_0000,
                m % l < l,
                cutoff as nat == m % l,
                *rand == skip(start, 64, n + 1),
                full as nat == word(skip(start, 64, n), 64) * l,
                low as nat == full as nat % m,
                forall|j: nat| j < n ==> !accepted_at(start, 64, l, j),
                n <= k0,
                accepted_at(start, 64, l, k0),
            decreases k0 - n,
        {
            proof {
                lemma_skip_step(start, 64, n + 1);
            }
            let x = rand.next_u64();
            proof {
                lemma_scaled_word(x as nat, l, m);
            }
            full = (x as u128) * (lim as u128);
            proof {
                lemma_halves_u128(full);
            }
            low = #[verifier::truncate] (full as u64);
            proof {
                n = n + 1;
            }
        }
    }
    proof {
        lemma_scaled_word(word(skip(start, 64, n), 64), l, m);
        lemma_halves_u128(full);
    }
    let r = #[verifier::truncate] ((full >> 64) as u64);
    proof {
        assert(sampled_at(start, 64, l, n, r as nat, *rand));
    }
    Ok(r)
}

/// The largest word that a 128-bit draw below `lim` accepts: one less than the largest
/// multiple of `lim` that is at most `2^128`.
pub fn cutoff_u128(lim: u128) -> (r: u128)
    requires
        lim > 0,
    ensures
        r as nat == modulus(128) - 1 - modulus(128) % (lim as nat),
{
    proof {
        lemma_neg_mod(lim as nat, modulus(128));
    }
    let overhang = (u128::MAX - lim + 1) % lim;
    u128::MAX - overhang
}

/// Returns a uniformly distributed `u128` below `lim`. A limit that fits in 64 bits is
/// drawn from 64-bit words with the 64-bit method; a larger one from 128-bit words with
/// the modulo method.
pub fn next_lim_u128<R: Rand>(rand: &mut R, lim: u128) -> (r: Result<u128, RandError>)
    requires
        lim != 0 ==> eventually_accepts(*old(rand), bits_u128(lim), lim as nat),
    ensures
        lim == 0 ==> r == Err::<u128, RandError>(RandError::ZeroLimit) && *final(rand) == *old(
            rand,
        ),
        lim != 0 ==> r is Ok && r->Ok_0 < lim && sampled(
            *old(rand),
            bits_u128(lim),
            lim as nat,
            r->Ok_0 as nat,
            *final(rand),
        ),
{
    if lim == 0 {
        return Err(RandError::ZeroLimit);
    }
    if lim <= u64::MAX as u128 {
        match next_lim_u64(rand, lim as u64) {
            Ok(v) => Ok(v as u128),
            Err(e) => Err(e),
        }
    } else {
        let ghost start = *rand;
        let ghost l = lim as nat;
        let ghost k0 = choose|k: nat| accepted_at(start, 128, l, k);
        let ghost mut n: nat = 0;
        proof {
            lemma_skip_step(start, 128, 0);
        }
        let cutoff = cutoff_u128(lim);
        let mut x = rand.next_u128();
        while x > cutoff
            invariant
                0 < l,
                l == lim as nat,
                cutoff as nat == modulus(128) - 1 - modulus(128) % l,
                *rand == skip(start, 128, n + 1),
                x as nat == word(skip(start, 128, n), 128),
                forall|j: nat| j < n ==> !accepted_at(start, 128, l, j),
                n <= k0,
                accepted_at(start, 128, l, k0),
            decreases k0 - n,
        {
            proof {
                lemma_skip_step(start, 128, n + 1);
            }
            x = rand.next_u128();
            proof {
                n = n + 1;
            }
        }
        let r = x % lim;
        proof {
            assert(sampled_at(start, 128, l, n, r as nat, *rand));
        }
        Ok(r)
    }
}

/// Draws below a limit, for each unsigned width.
pub trait RandLim<N>: Sized {
    /// Whether a draw below `lim` from this generator is sure to end: the limit is zero,
    /// or some word that the generator will yield is accepted.
    spec fn lim_ends(&self, lim: N) -> bool;

    /// Whether a draw below `lim` from this generator returns `r` and leaves `after`.
    spec fn lim_outcome(&self, lim: N, r: Result<N, RandError>, after: Self) -> bool;

    /// Returns a uniformly distributed number in `0..lim`; fails with
    /// [`RandError::ZeroLimit`], drawing nothing, when `lim` is zero.
    fn next_lim(&mut self, lim: N) -> (r: Result<N, RandError>)
        requires
            old(self).lim_ends(lim),
        ensures
            old(self).lim_outcome(lim, r, *final(self)),
    ;
}

impl<R: Rand> RandLim<u16> for R {
    open spec fn lim_ends(&self, lim: u16) -> bool {
        lim != 0 ==> eventually_accepts(*self, 16, lim as nat)
    }

    open spec fn lim_outcome(&self, lim: u16, r: Result<u16, RandError>, after: Self) -> bool {
        if lim == 0 {
            r == Err::<u16, RandError>(RandError::ZeroLimit) && after == *self
        } else {
            r is Ok && r->Ok_0 < lim && sampled(*self, 16, lim as nat, r->Ok_0 as nat, after)
        }
    }

    fn next_lim(&mut self, lim: u16) -> Result<u16, RandError> {
        next_lim_u16(self, lim)
    }
}

impl<R: Rand> RandLim<u32> for R {
    open spec fn lim_ends(&self, lim: u32) -> bool {
        lim != 0 ==> eventually_accepts(*self, 32, lim as nat)
    }

    open spec fn lim_outcome(&self, lim: u32, r: Result<u32, RandError>, after: Self) -> bool {
        if lim == 0 {
            r == Err::<u32, RandError>(RandError::ZeroLimit) && after == *self
        } else {
            r is Ok && r->Ok_0 < lim && sampled(*self, 32, lim as nat, r->Ok_0 as nat, after)
        }
    }

    fn next_lim(&mut self, lim: u32) -> Result<u32, RandError> {
        next_lim_u32(self, lim)
    }
}

impl<R: Rand> RandLim<u64> for R {
    open spec fn lim_ends(&self, lim: u64) -> bool {
        lim != 0 ==> eventually_accepts(*self, 64, lim as nat)
    }

    open spec fn lim_outcome(&self, lim: u64, r: Result<u64, RandError>, after: Self) -> bool {
        if lim == 0 {
            r == Err::<u64, RandError>(RandError::ZeroLimit) && after == *self
        } else {
            r is Ok && r->Ok_0 < lim && sampled(*self, 64, lim as nat, r->Ok_0 as nat, after)
        }
    }

    fn next_lim(&mut self, lim: u64) -> Result<u64, RandError> {
        next_lim_u64(self, lim)
    }
}

impl<R: Rand> RandLim<u128> for R {
    open spec fn lim_ends(&self, lim: u128) -> bool {
        lim != 0 ==> eventually_accepts(*self, bits_u128(lim), lim as nat)
    }

    open spec fn lim_outcome(&self, lim: u128, r: Result<u128, RandError>, after: Self) -> bool {
        if lim == 0 {
            r == Err::<u128, RandError>(RandError::ZeroLimit) && after == *self
        } else {
            r is Ok && r->Ok_0 < lim && sampled(*self, bits_u128(lim), lim as nat, r->Ok_0 as nat, after)
        }
    }

    fn next_lim(&mut self, lim: u128) -> Result<u128, RandError> {
        next_lim_u128(self, lim)
    }
}

impl<R: Rand> RandLim<usize> for R {
    open spec fn lim_ends(&self, lim: usize) -> bool {
        lim != 0 ==> eventually_accepts(*self, 64, lim as nat)
    }

    open spec fn lim_outcome(&self, lim: usize, r: Result<usize, RandError>, after: Self) -> bool {
        if lim == 0 {
            r == Err::<usize, RandError>(RandError::ZeroLimit) && after == *self
        } else {
            r is Ok && r->Ok_0 < lim && sampled(*self, 64, lim as nat, r->Ok_0 as nat, after)
        }
    }

    /// Draws with the 64-bit method.
    fn next_lim(&mut self, lim: usize) -> Result<usize, RandError> {
        match next_lim_u64(self, lim as u64) {
            Ok(v) => Ok(v as usize),
            Err(e) => Err(e),
        }
    }
}

} // verus!
