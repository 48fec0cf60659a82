//! Addresses of the parties and records the wheel deals with.

use vstd::prelude::*;
use vstd::std_specs::cmp::PartialEqSpecImpl;

verus! {

/// A 32-byte address: a user, an administrator, a token mint or a token account.
/// Two identities are the same when all their bytes are.
#[derive(Clone, Copy, Debug, Eq, Hash)]
pub struct Identity {
    pub bytes: [u8; 32],
}

impl Identity {
    /// The address whose bytes are all zero, which an empty record holds.
    pub open spec fn zero() -> Identity {
        Identity { bytes: vstd::array::spec_array_fill_for_copy_type::<u8, 32>(0u8) }
    }
}

impl PartialEq for Identity {
    fn eq(&self, other: &Identity) -> (same: bool) {
        let mut i: usize = 0;
        while i < 32
            invariant
                i <= 32,
                forall|j: int| 0 <= j < i ==> self.bytes[j] == other.bytes[j],
            decreases 32 - i,
        {
            if self.bytes[i] != other.bytes[i] {
                return false;
            }
            i += 1;
        }
        assert(self.bytes =~= other.bytes);
        true
    }
}

impl PartialEqSpecImpl for Identity {
    open spec fn obeys_eq_spec() -> bool {
        true
    }

    open spec fn eq_spec(&self, other: &Identity) -> bool {
        *self == *other
    }
}

impl Default for Identity {
    fn default() -> (id: Identity)
        ensures
            id == Identity::zero(),
    {
        Identity { bytes: [0u8; 32] }
    }
}

} // verus!
