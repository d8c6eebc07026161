//! The identity under which one application is known on every machine of an
//! account.

use vstd::prelude::*;

verus! {

/// Number of bytes in an application identity.
pub const IDENTITY_LEN: usize = 64;

/// A 512-bit name. Two identities name the same application exactly when
/// their bytes agree; which identity a given binary gets is decided outside
/// this crate.
#[derive(Clone, Copy, Debug, PartialEq, Eq, Hash)]
pub struct AppIdentity {
    pub bytes: [u8; 64],
}

impl AppIdentity {
    /// Wraps the given bytes.
    pub fn new(bytes: [u8; 64]) -> (id: Self)
        ensures
            id.bytes == bytes,
    {
        AppIdentity { bytes }
    }

    /// The bytes of this identity.
    pub fn get_id(&self) -> (bytes: [u8; 64])
        ensures
            bytes == self.bytes,
    {
        self.bytes
    }

    /// Whether both identities name the same application.
    pub fn same_as(&self, other: &AppIdentity) -> (same: bool)
        ensures
            same == (*self == *other),
    {
        let mut i: usize = 0;
        while i < IDENTITY_LEN
            invariant
                i <= IDENTITY_LEN,
                forall|k: int| 0 <= k < i ==> self.bytes[k] == other.bytes[k],
            decreases IDENTITY_LEN - i,
        {
            if self.bytes[i] != other.bytes[i] {
                return false;
            }
            i += 1;
        }
        assert(self.bytes =~= other.bytes);
        true
    }
}

} // verus!
