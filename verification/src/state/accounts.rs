use vstd::prelude::*;
use vstd::std_specs::cmp::PartialEqSpecImpl;

verus! {

/// A 32-byte account address.
#[derive(Clone, Copy, Debug, Eq)]
pub struct Pubkey {
    pub bytes: [u8; 32],
}

impl PartialEq for Pubkey {
    fn eq(&self, other: &Pubkey) -> (same: bool) {
        self.same_as(other)
    }
}

impl PartialEqSpecImpl for Pubkey {
    open spec fn obeys_eq_spec() -> bool {
        true
    }

    open spec fn eq_spec(&self, other: &Pubkey) -> bool {
        *self == *other
    }
}

impl Pubkey {
    /// The address made of the given bytes.
    pub fn new_from_array(bytes: [u8; 32]) -> (key: Pubkey)
        ensures
            key.bytes == bytes,
    {
        Pubkey { bytes }
    }

    /// The bytes of the address.
    pub fn to_bytes(&self) -> (bytes: [u8; 32])
        ensures
            bytes == self.bytes,
    {
        self.bytes
    }

    /// Whether two addresses are the same.
    pub fn same_as(&self, other: &Pubkey) -> (same: bool)
        ensures
            same == (*self == *other),
    {
        let mut i: usize = 0;
        while i < 32
            invariant
                i <= 32,
                forall|j: int| 0 <= j < i ==> self.bytes[j] == other.bytes[j],
            decreases 32 - i,
        {
            if self.bytes[i] != other.bytes[i] {
                return false;
            }
            i += 1;
        }
        assert(self.bytes =~= other.bytes);
        true
    }
}

/// What the curve reads of an account of the ledger: its address, and the
/// program that owns it.
#[derive(Clone, Copy, Debug, PartialEq, Eq)]
pub struct AccountInfo {
    pub key: Pubkey,
    pub owner: Pubkey,
}

/// What the curve reads of an account of the token ledger.
#[derive(Clone, Copy, Debug, PartialEq, Eq)]
pub struct TokenAccount {
    /// The token that the account holds.
    pub mint: Pubkey,
    /// Who may move the tokens.
    pub owner: Pubkey,
    /// How many token units the account holds.
    pub amount: u64,
}

} // verus!
