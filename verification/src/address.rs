//! Identities: holders, mints, programs and vaults are each named by 32 bytes.

use vstd::prelude::*;

verus! {

/// A 32-byte identity. Its view is the sequence of its bytes.
#[derive(Clone, Copy, Debug, PartialEq, Eq, Hash)]
pub struct Address {
    pub bytes: [u8; 32],
}

impl View for Address {
    type V = Seq<u8>;

    open spec fn view(&self) -> Seq<u8> {
        self.bytes@
    }
}

impl Address {
    /// The identity with the given bytes.
    pub fn new(bytes: [u8; 32]) -> (address: Address)
        ensures
            address.bytes == bytes,
            address@ == bytes@,
    {
        Address { bytes }
    }

    /// The bytes of this identity.
    pub fn to_bytes(&self) -> (bytes: [u8; 32])
        ensures
            bytes == self.bytes,
    {
        self.bytes
    }

    /// Whether two identities are the same, byte for byte.
    pub fn same(&self, other: &Address) -> (equal: bool)
        ensures
            equal == (self@ == other@),
            equal == (*self == *other),
    {
        let mut i: usize = 0;
        while i < 32
            invariant
                0 <= i <= 32,
                forall|j: int| 0 <= j < i ==> self.bytes[j] == other.bytes[j],
            decreases 32 - i,
        {
            if self.bytes[i] != other.bytes[i] {
                return false;
            }
            i = i + 1;
        }
        proof {
            lemma_same_bytes(*self, *other);
        }
        true
    }
}

/// Two identities with the same bytes are one identity.
pub proof fn lemma_same_bytes(a: Address, b: Address)
    requires
        forall|j: int| 0 <= j < 32 ==> a.bytes[j] == b.bytes[j],
    ensures
        a@ == b@,
        a == b,
{
    assert(a.bytes@ =~= b.bytes@);
    assert(a.bytes =~= b.bytes);
}

} // verus!
