//! Arithmetic facts shared by the samplers and generators.
use vstd::prelude::*;

verus! {

/// The product of two 64-bit words fits in 128 bits.
pub proof fn lemma_mul_u64_fits(a: u64, b: u64)
    ensures
        a as nat * b as nat <= u128::MAX,
{
    let m: nat = 0xFFFF_FFFF_FFFF_FFFF;
    assert(a as nat * b as nat <= m * m) by (nonlinear_arith)
        requires
            a as nat <= m,
            b as nat <= m,
    ;
}

/// Splitting a 128-bit word into halves.
pub proof fn lemma_halves_u128(r: u128)
    ensures
        (r as u64) as nat == r as nat % 0x1_0000_0000_0000_0000,
        ((r >> 64) as u64) as nat == r as nat / 0x1_0000_0000_0000_0000,
{
    assert((r as u64) as u128 == r % 0x1_0000_0000_0000_0000) by (bit_vector);
    assert(((r >> 64) as u64) as u128 == r / 0x1_0000_0000_0000_0000) by (bit_vector);
}

/// Splitting a 32-bit word into halves.
pub proof fn lemma_halves_u32(r: u32)
    ensures
        (r as u16) as nat == r as nat % 0x1_0000,
        ((r >> 16) as u16) as nat == r as nat / 0x1_0000,
{
    assert((r as u16) as u32 == r % 0x1_0000) by (bit_vector);
    assert(((r >> 16) as u16) as u32 == r / 0x1_0000) by (bit_vector);
}

/// Splitting a 64-bit word into halves.
pub proof fn lemma_halves_u64(r: u64)
    ensures
        (r as u32) as nat == r as nat % 0x1_0000_0000,
        ((r >> 32) as u32) as nat == r as nat / 0x1_0000_0000,
{
    assert((r as u32) as u64 == r % 0x1_0000_0000) by (bit_vector);
    assert(((r >> 32) as u32) as u64 == r / 0x1_0000_0000) by (bit_vector);
}

/// A product of a word below `m` and a limit at most `m`: it stays below `m * m`, and its
/// quotient by `m` stays below the limit.
pub proof fn lemma_scaled_word(x: nat, lim: nat, m: nat)
    requires
        x < m,
        0 < lim <= m,
    ensures
        x * lim < m * m,
        (x * lim) / m < lim,
{
    assert(x * lim < m * lim) by (nonlinear_arith)
        requires
            x < m,
            0 < lim,
    ;
    assert(m * lim <= m * m) by (nonlinear_arith)
        requires
            lim <= m,
    ;
    assert(x * lim < lim * m) by (nonlinear_arith)
        requires
            x * lim < m * lim,
    ;
    vstd::arithmetic::div_mod::lemma_multiply_divide_lt((x * lim) as int, m as int, lim as int);
}

/// Taking the limit away from the modulus keeps the remainder by the limit.
pub proof fn lemma_neg_mod(lim: nat, m: nat)
    requires
        0 < lim <= m,
    ensures
        ((m - lim) as nat) % lim == m % lim,
        m % lim < lim,
{
    vstd::arithmetic::div_mod::lemma_mod_add_multiples_vanish((m - lim) as int, lim as int);
}

} // verus!
