//! Helpers that the usage examples share.
use vstd::prelude::*;

verus! {

/// How many times [`SomeSpecialCondition::has_happened`] answers `false` before it
/// answers `true`.
pub const CONDITION_DELAY: u32 = 10;

/// A condition that comes about on the eleventh time it is asked about, and stays.
pub struct SomeSpecialCondition {
    count: u32,
}

impl View for SomeSpecialCondition {
    /// How many times the condition was found not to have happened.
    type V = nat;

    closed spec fn view(&self) -> nat {
        self.count as nat
    }
}

impl SomeSpecialCondition {
    #[verifier::type_invariant]
    spec fn wf(self) -> bool {
        self.count <= CONDITION_DELAY
    }

    /// A condition that has not been asked about.
    pub fn new() -> (r: SomeSpecialCondition)
        ensures
            r@ == 0,
    {
        SomeSpecialCondition { count: 0 }
    }

    /// Whether the condition has happened: `false` the first ten times it is asked,
    /// `true` from then on.
    pub fn has_happened(&mut self) -> (r: bool)
        ensures
            r == (old(self)@ == CONDITION_DELAY as nat),
            final(self)@ == if r {
                old(self)@
            } else {
                old(self)@ + 1
            },
    {
        proof {
            use_type_invariant(&*self);
        }
        if self.count == CONDITION_DELAY {
            true
        } else {
            self.count = self.count + 1;
            false
        }
    }
}

/// The seed that the usage examples start from.
pub fn get_seed_from_somewhere() -> (r: u64)
    ensures
        r == 42_242_424_242,
{
    42_242_424_242
}

} // verus!
