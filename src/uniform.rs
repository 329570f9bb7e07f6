//! Why draws below a limit are unbiased.
//!
//! Give each word that a draw accepts a rank among the accepted words of the same value.
//! The accepted words of `bits` bits then correspond one to one to the pairs `(v, i)` with
//! `v < lim` and `i < 2^bits / lim`, `v` being the value the word gives:
//! [`lemma_uniform_preimage`] finds the word of each pair, [`lemma_uniform_bounds`] puts
//! every accepted word in some pair and [`lemma_uniform_unique`] shows that no two share
//! one. So every value below the limit is given by exactly `2^bits / lim` words, and with
//! uniformly distributed words each value is returned with probability `1 / lim`.
use crate::lim::{accepts, lemire_accepts, lemire_value, modulo_accepts, outcome};
use crate::modulus;
use vstd::arithmetic::div_mod::{
    lemma_fundamental_div_mod, lemma_fundamental_div_mod_converse, lemma_multiply_divide_lt,
};
use vstd::prelude::*;

verus! {

/// The rank of word `x` among the words that Lemire's method maps to the same value: how
/// many whole limits its scaled low half lies above `m mod lim`.
pub open spec fn lemire_rank(x: nat, lim: nat, m: nat) -> nat {
    (((x * lim) % m - m % lim) as nat) / lim
}

/// The rank of an accepted word `x` among those of the same value, for a draw of `bits`
/// bits below `lim`.
pub open spec fn rank(x: nat, lim: nat, bits: nat) -> nat {
    if bits == 128 {
        x / lim
    } else {
        lemire_rank(x, lim, modulus(bits))
    }
}

/// Lemire's method accepts a word of each value below `lim` and each rank below `m / lim`.
pub proof fn lemma_lemire_preimage(v: nat, i: nat, lim: nat, m: nat) -> (x: nat)
    requires
        0 < lim <= m,
        v < lim,
        i < m / lim,
    ensures
        x < m,
        lemire_accepts(x, lim, m),
        lemire_value(x, lim, m) == v,
        lemire_rank(x, lim, m) == i,
{
    let t = m % lim;
    let q = m / lim;
    lemma_fundamental_div_mod(m as int, lim as int);
    assert(m == q * lim + t) by (nonlinear_arith)
        requires
            m == lim * q + t,
    ;
    let c: nat = v * m + t + i * lim;
    let x: nat = ((c + lim - 1) as nat) / lim;
    lemma_fundamental_div_mod((c + lim - 1) as int, lim as int);
    let r = ((c + lim - 1) as nat) % lim;
    let p: nat = x * lim;
    assert(p == lim * x) by (nonlinear_arith)
        requires
            p == x * lim,
    ;
    assert(c <= p && p + 1 <= c + lim);
    assert(i * lim + lim <= q * lim) by (nonlinear_arith)
        requires
            i < q,
            0 < lim,
    ;
    assert(v * m + m == (v + 1) * m) by (nonlinear_arith);
    assert(v * m + t <= p && p < (v + 1) * m);
    lemma_fundamental_div_mod_converse(p as int, m as int, v as int, (p - v * m) as int);
    assert(p % m == p - v * m);
    assert(p / m == v);
    let low = (p - v * m) as nat;
    assert(low - t == i * lim + (p - c));
    lemma_fundamental_div_mod_converse((low - t) as int, lim as int, i as int, (p - c) as int);
    assert((v + 1) * m <= lim * m) by (nonlinear_arith)
        requires
            v + 1 <= lim,
    ;
    assert(x < m) by (nonlinear_arith)
        requires
            x * lim < lim * m,
            0 < lim,
    ;
    x
}

/// An accepted word of Lemire's method has a value below `lim` and a rank below `m / lim`.
pub proof fn lemma_lemire_bounds(x: nat, lim: nat, m: nat)
    requires
        0 < lim <= m,
        x < m,
        lemire_accepts(x, lim, m),
    ensures
        lemire_value(x, lim, m) < lim,
        lemire_rank(x, lim, m) < m / lim,
{
    crate::arith::lemma_scaled_word(x, lim, m);
    let t = m % lim;
    let q = m / lim;
    lemma_fundamental_div_mod(m as int, lim as int);
    let low = (x * lim) % m;
    assert(low < m);
    assert(((low - t) as nat) < lim * q);
    lemma_multiply_divide_lt((low - t) as int, lim as int, q as int);
}

/// Two words that Lemire's method accepts, with the same value and rank, are equal.
pub proof fn lemma_lemire_unique(x1: nat, x2: nat, lim: nat, m: nat)
    requires
        0 < lim <= m,
        lemire_accepts(x1, lim, m),
        lemire_accepts(x2, lim, m),
        lemire_value(x1, lim, m) == lemire_value(x2, lim, m),
        lemire_rank(x1, lim, m) == lemire_rank(x2, lim, m),
    ensures
        x1 == x2,
{
    let t = m % lim;
    let v = lemire_value(x1, lim, m);
    let p1 = x1 * lim;
    let p2 = x2 * lim;
    lemma_fundamental_div_mod(p1 as int, m as int);
    lemma_fundamental_div_mod(p2 as int, m as int);
    let d1 = (p1 % m - t) as nat;
    let d2 = (p2 % m - t) as nat;
    lemma_fundamental_div_mod(d1 as int, lim as int);
    lemma_fundamental_div_mod(d2 as int, lim as int);
    let k = lemire_rank(x1, lim, m);
    let s1 = d1 % lim;
    let s2 = d2 % lim;
    assert(p1 - p2 == d1 - d2);
    assert(d1 - d2 == s1 - s2) by (nonlinear_arith)
        requires
            d1 == lim * k + s1,
            d2 == lim * k + s2,
    ;
    assert((x1 - x2) * lim == p1 - p2) by (nonlinear_arith)
        requires
            p1 == x1 * lim,
            p2 == x2 * lim,
    ;
    assert(x1 == x2) by (nonlinear_arith)
        requires
            (x1 - x2) * lim == s1 - s2,
            0 <= s1 < lim,
            0 <= s2 < lim,
            0 < lim,
    ;
}

/// The modulo method accepts a word of each value below `lim` and each rank below `m / lim`:
/// `i * lim + v`.
pub proof fn lemma_modulo_preimage(v: nat, i: nat, lim: nat, m: nat) -> (x: nat)
    requires
        0 < lim <= m,
        v < lim,
        i < m / lim,
    ensures
        x < m,
        modulo_accepts(x, lim, m),
        x % lim == v,
        x / lim == i,
{
    let x: nat = i * lim + v;
    lemma_fundamental_div_mod_converse(x as int, lim as int, i as int, v as int);
    lemma_fundamental_div_mod(m as int, lim as int);
    assert(i * lim + lim <= (m / lim) * lim) by (nonlinear_arith)
        requires
            i < m / lim,
            0 < lim,
    ;
    assert((m / lim) * lim == lim * (m / lim)) by (nonlinear_arith);
    x
}

/// An accepted word of the modulo method has a rank below `m / lim`.
pub proof fn lemma_modulo_bounds(x: nat, lim: nat, m: nat)
    requires
        0 < lim <= m,
        modulo_accepts(x, lim, m),
    ensures
        x % lim < lim,
        x / lim < m / lim,
{
    lemma_fundamental_div_mod(m as int, lim as int);
    lemma_multiply_divide_lt(x as int, lim as int, (m / lim) as int);
}

/// Two words with the same remainder and quotient by `lim` are equal.
pub proof fn lemma_modulo_unique(x1: nat, x2: nat, lim: nat)
    requires
        0 < lim,
        x1 % lim == x2 % lim,
        x1 / lim == x2 / lim,
    ensures
        x1 == x2,
{
    lemma_fundamental_div_mod(x1 as int, lim as int);
    lemma_fundamental_div_mod(x2 as int, lim as int);
}

/// For each value `v` below `lim` and each rank `i` below `2^bits / lim`, a draw of `bits`
/// bits accepts a word of value `v` and rank `i`.
pub proof fn lemma_uniform_preimage(v: nat, i: nat, lim: nat, bits: nat) -> (x: nat)
    requires
        0 < lim <= modulus(bits),
        v < lim,
        i < modulus(bits) / lim,
    ensures
        x < modulus(bits),
        accepts(x, lim, bits),
        outcome(x, lim, bits) == v,
        rank(x, lim, bits) == i,
{
    if bits == 128 {
        lemma_modulo_preimage(v, i, lim, modulus(bits))
    } else {
        lemma_lemire_preimage(v, i, lim, modulus(bits))
    }
}

/// Every word of `bits` bits that a draw below `lim` accepts gives a value below `lim`
/// and has a rank below `2^bits / lim`.
pub proof fn lemma_uniform_bounds(x: nat, lim: nat, bits: nat)
    requires
        0 < lim <= modulus(bits),
        x < modulus(bits),
        accepts(x, lim, bits),
    ensures
        outcome(x, lim, bits) < lim,
        rank(x, lim, bits) < modulus(bits) / lim,
{
    if bits == 128 {
        lemma_modulo_bounds(x, lim, modulus(bits));
    } else {
        lemma_lemire_bounds(x, lim, modulus(bits));
    }
}

/// Two accepted words of `bits` bits with the same value and rank are the same word.
pub proof fn lemma_uniform_unique(x1: nat, x2: nat, lim: nat, bits: nat)
    requires
        0 < lim <= modulus(bits),
        accepts(x1, lim, bits),
        accepts(x2, lim, bits),
        outcome(x1, lim, bits) == outcome(x2, lim, bits),
        rank(x1, lim, bits) == rank(x2, lim, bits),
    ensures
        x1 == x2,
{
    if bits == 128 {
        lemma_modulo_unique(x1, x2, lim);
    } else {
        lemma_lemire_unique(x1, x2, lim, modulus(bits));
    }
}

} // verus!
