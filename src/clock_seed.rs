//! Seeds from a clock reading.
use vstd::prelude::*;

verus! {

/// The seed derived from a nanosecond timestamp: its upper 64 bits exclusive-ored with
/// its lower 64 bits.
pub fn seed_from_nanos(nanos: u128) -> (r: u64)
    ensures
        r == ((nanos >> 64u128) ^ nanos) as u64,
        r == ((nanos >> 64u128) as u64) ^ (nanos as u64),
{
    let r = ((nanos >> 64u128) ^ nanos) as u64;
    assert(r == ((nanos >> 64u128) as u64) ^ (nanos as u64)) by (bit_vector)
        requires
            r == ((nanos >> 64u128) ^ nanos) as u64,
    ;
    r
}

} // verus!
