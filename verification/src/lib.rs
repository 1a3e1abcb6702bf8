//! Agreed block time for a deterministic block-execution pipeline.
//!
//! A block producer derives a proposed time from its local clock, validators
//! check the proposal against their own clocks within a fixed drift bound,
//! and the clock state machine applies the agreed value exactly once per
//! block, enforcing a minimum period between consecutive updates.

use vstd::prelude::*;

pub mod clock;
pub mod error;
pub mod inherent;

verus! {

/// The identifier for the timestamp inherent data slot: the ASCII tag
/// "timstap0" (eight bytes, trailing marker included).
pub const INHERENT_IDENTIFIER: [u8; 8] = [0x74, 0x69, 0x6d, 0x73, 0x74, 0x61, 0x70, 0x30];

/// The type of the inherent payload: seconds since a fixed epoch.
pub type InherentType = u64;

/// Compares two inherent identifiers byte for byte.
pub fn ids_equal(a: &[u8; 8], b: &[u8; 8]) -> (r: bool)
    ensures
        r == (a@ == b@),
{
    let mut i: usize = 0;
    while i < 8
        invariant
            0 <= i <= 8,
            forall|j: int| 0 <= j < i ==> a@[j] == b@[j],
        decreases 8 - i,
    {
        if a[i] != b[i] {
            return false;
        }
        i = i + 1;
    }
    proof {
        assert(a@ =~= b@);
    }
    true
}

} // verus!
