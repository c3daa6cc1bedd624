//! Plain values shared by the account layouts.

use vstd::prelude::*;

verus! {

/// A 32-byte digest.
#[derive(Clone, Copy, Debug, PartialEq, Eq)]
pub struct Hash {
    pub data: [u8; 32],
}

impl Hash {
    /// Every byte is zero.
    pub open spec fn is_zeroed(&self) -> bool {
        forall|i: int| 0 <= i < 32 ==> self.data[i] == 0
    }
}

impl Default for Hash {
    fn default() -> (h: Hash)
        ensures
            h.is_zeroed(),
    {
        Hash { data: [0u8; 32] }
    }
}

} // verus!
