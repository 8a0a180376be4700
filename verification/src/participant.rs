//! Participant identities: opaque 32-byte addresses that the dispatcher
//! resolves for each call.

use vstd::prelude::*;

verus! {

/// The identity of a participant: a fixed-width address that this library
/// compares and never interprets.
#[derive(Clone, Copy, Debug, Eq)]
pub struct Participant {
    /// The address bytes.
    pub bytes: [u8; 32],
}

impl PartialEq for Participant {
    fn eq(&self, other: &Participant) -> (r: bool) {
        let mut i: usize = 0;
        while i < 32
            invariant
                i <= 32,
                forall|j: int| 0 <= j < i ==> self.bytes@[j] == other.bytes@[j],
            decreases 32 - i,
        {
            if self.bytes[i] != other.bytes[i] {
                return false;
            }
            i += 1;
        }
        assert(self.bytes =~= other.bytes);
        true
    }
}

impl vstd::std_specs::cmp::PartialEqSpecImpl for Participant {
    open spec fn obeys_eq_spec() -> bool {
        true
    }

    open spec fn eq_spec(&self, other: &Participant) -> bool {
        *self == *other
    }
}

} // verus!
