//! Identities: the 32-byte names by which tokens, accounts and principals are known.

use vstd::prelude::*;
use vstd::std_specs::cmp::PartialEqSpecImpl;

verus! {

/// Number of bytes in an identity.
pub const IDENTITY_LEN: usize = 32;

/// A globally unique 32-byte identifier.
///
/// The same type names a token type, an external account and a principal. An identity has
/// no structure beyond its bytes: two identities are the same exactly when all of their
/// bytes agree.
#[derive(Clone, Copy, Debug)]
pub struct Identity {
    /// The identifier itself.
    pub bytes: [u8; 32],
}

impl Identity {
    /// The identity made of the given bytes.
    pub fn new(bytes: [u8; 32]) -> (id: Identity)
        ensures
            id.bytes == bytes,
    {
        Identity { bytes }
    }

    /// The bytes of this identity.
    pub fn to_bytes(&self) -> (bytes: [u8; 32])
        ensures
            bytes == self.bytes,
    {
        self.bytes
    }
}

impl PartialEq for Identity {
    fn eq(&self, other: &Identity) -> (same: bool) {
        let mut i: usize = 0;
        while i < IDENTITY_LEN
            invariant
                i <= IDENTITY_LEN,
                forall|j: int| 0 <= j < i ==> self.bytes[j] == other.bytes[j],
            decreases IDENTITY_LEN - i,
        {
            if self.bytes[i] != other.bytes[i] {
                return false;
            }
            i += 1;
        }
        assert(self.bytes =~= other.bytes);
        true
    }
}

impl Eq for Identity {}

impl PartialEqSpecImpl for Identity {
    open spec fn obeys_eq_spec() -> bool {
        true
    }

    open spec fn eq_spec(&self, other: &Identity) -> bool {
        *self == *other
    }
}

/// Two identities are equal exactly when they agree byte for byte.
pub proof fn identity_is_its_bytes(a: Identity, b: Identity)
    ensures
        a == b <==> a.bytes@ == b.bytes@,
{
    if a.bytes@ == b.bytes@ {
        assert(a.bytes =~= b.bytes);
    }
}

} // verus!
