//! Account identities: opaque 32-byte keys with equality and nothing else.

use vstd::prelude::*;

verus! {

/// An account identity. Two identities are the same account exactly when
/// their 32 bytes agree.
#[derive(Debug, Clone, Copy, PartialEq, Eq, Hash)]
pub struct AccountId {
    bytes: [u8; 32],
}

impl AccountId {
    /// The bytes that make up this identity.
    pub closed spec fn spec_bytes(self) -> Seq<u8> {
        self.bytes@
    }

    /// The identity made of the given bytes.
    pub fn from_bytes(bytes: [u8; 32]) -> (id: AccountId)
        ensures
            id.spec_bytes() == bytes@,
    {
        AccountId { bytes }
    }

    /// The bytes of this identity.
    pub fn to_bytes(&self) -> (bytes: [u8; 32])
        ensures
            bytes@ == self.spec_bytes(),
    {
        self.bytes
    }

    /// Whether `self` and `other` name the same account.
    pub fn same(&self, other: &AccountId) -> (r: bool)
        ensures
            r == (*self == *other),
    {
        let mut i: usize = 0;
        while i < 32
            invariant
                i <= 32,
                forall|j: int| 0 <= j < i ==> self.bytes@[j] == other.bytes@[j],
            decreases 32 - i,
        {
            if self.bytes[i] != other.bytes[i] {
                return false;
            }
            i += 1;
        }
        assert(self.bytes =~= other.bytes);
        true
    }
}

/// Identities with the same bytes are the same identity.
pub proof fn lemma_account_by_bytes(a: AccountId, b: AccountId)
    ensures
        (a == b) <==> (a.spec_bytes() == b.spec_bytes()),
{
    if a.spec_bytes() == b.spec_bytes() {
        assert(forall|i: int| 0 <= i < 32 ==> a.bytes[i] == b.bytes@[i]);
        assert(a.bytes =~= b.bytes);
    }
}

} // verus!
