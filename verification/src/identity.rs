//! Identities: the 32-byte values that name accounts and signers.

use vstd::prelude::*;

verus! {

/// The 32 bytes of an account address or of a signer's public key.
///
/// Two identities are the same exactly when all of their bytes agree.
#[derive(Clone, Copy, Debug)]
pub struct Identity {
    bytes: [u8; 32],
}

impl View for Identity {
    type V = Seq<u8>;

    closed spec fn view(&self) -> Seq<u8> {
        self.bytes@
    }
}

impl Identity {
    /// Wraps 32 bytes as an identity.
    pub fn new_from_array(bytes: [u8; 32]) -> (id: Identity)
        ensures
            id@ == bytes@,
    {
        Identity { bytes }
    }

    /// The bytes of the identity.
    pub fn to_bytes(&self) -> (bytes: [u8; 32])
        ensures
            bytes@ == self@,
    {
        self.bytes
    }

    /// Every identity has 32 bytes, and its bytes determine it.
    pub proof fn lemma_bytes_determine_identity(self, other: Identity)
        ensures
            self@.len() == 32,
            self@ == other@ <==> self == other,
    {
        broadcast use vstd::array::group_array_axioms;

        if self@ == other@ {
            assert(self.bytes =~= other.bytes);
        }
    }

    /// Compares two identities byte by byte.
    pub fn same_as(&self, other: &Identity) -> (same: bool)
        ensures
            same == (self@ == other@),
    {
        let mut i: usize = 0;
        while i < 32
            invariant
                i <= 32,
                forall|j: int| 0 <= j < i ==> self.bytes@[j] == other.bytes@[j],
            decreases 32 - i,
        {
            if self.bytes[i] != other.bytes[i] {
                return false;
            }
            i += 1;
        }
        assert(self.bytes@ =~= other.bytes@);
        true
    }
}

impl PartialEq for Identity {
    fn eq(&self, other: &Identity) -> (same: bool) {
        self.same_as(other)
    }
}

impl vstd::std_specs::cmp::PartialEqSpecImpl for Identity {
    open spec fn obeys_eq_spec() -> bool {
        true
    }

    open spec fn eq_spec(&self, other: &Identity) -> bool {
        self@ == other@
    }
}

impl Eq for Identity {}

} // verus!
