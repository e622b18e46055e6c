//! Account identifiers: the opaque 32-byte keys naming participants.

use vstd::prelude::*;

verus! {

broadcast use vstd::array::group_array_axioms;

/// How many bytes an account identifier holds.
pub const ACCOUNT_ID_BYTES: usize = 32;

/// An opaque 32-byte key naming a participant. It serves both as the
/// primary key of a profile and as the value of the cross-reference
/// fields that point at the same user's accounts in other systems.
#[derive(Clone, Copy, Debug, PartialEq, Eq)]
pub struct AccountId {
    pub bytes: [u8; 32],
}

impl View for AccountId {
    type V = Seq<u8>;

    open spec fn view(&self) -> Seq<u8> {
        self.bytes@
    }
}

impl DeepView for AccountId {
    type V = Seq<u8>;

    open spec fn deep_view(&self) -> Seq<u8> {
        self.bytes@
    }
}

impl AccountId {
    /// The identifier made of the given bytes.
    pub fn new(bytes: [u8; 32]) -> (r: AccountId)
        ensures
            r@ == bytes@,
    {
        AccountId { bytes }
    }

    /// The all-zero identifier, used as the placeholder value for an
    /// unset cross-reference field.
    pub fn zero() -> (r: AccountId)
        ensures
            r@.len() == 32,
            forall|i: int| 0 <= i < 32 ==> r@[i] == 0u8,
    {
        AccountId { bytes: [0u8; 32] }
    }

    /// True exactly when the two identifiers hold the same bytes.
    pub fn equals(&self, other: &AccountId) -> (r: bool)
        ensures
            r == (self@ == other@),
    {
        let mut i: usize = 0;
        while i < 32
            invariant
                i <= 32,
                forall|j: int| 0 <= j < i ==> self.bytes@[j] == other.bytes@[j],
            decreases 32 - i,
        {
            if self.bytes[i] != other.bytes[i] {
                return false;
            }
            i += 1;
        }
        proof {
            assert(self@ =~= other@);
        }
        true
    }
}

} // verus!
