use vstd::prelude::*;

verus! {

/// An identity on the ledger: either the public key of an outside party
/// (an admin, registrar, buyer or seller wallet) or the deterministically
/// derived address of a stored record. The protocol only ever compares
/// keys for equality, so a key is held as a single machine word.
#[derive(Clone, Copy, PartialEq, Eq, Structural, Debug, Hash)]
pub struct PublicKey {
    pub value: u64,
}

/// The all-zero key: the substrate's default value, used by the protocol
/// as the "no key recorded" sentinel (for example in a lookup record that
/// nobody has searched yet).
pub open spec fn empty_key() -> PublicKey {
    PublicKey { value: 0 }
}

impl PublicKey {
    pub fn new(value: u64) -> (k: PublicKey)
        ensures
            k.value == value,
    {
        PublicKey { value }
    }

    /// The sentinel key recording "nobody".
    pub fn empty() -> (k: PublicKey)
        ensures
            k == empty_key(),
    {
        PublicKey { value: 0 }
    }

    pub fn is_empty(&self) -> (b: bool)
        ensures
            b == (*self == empty_key()),
    {
        self.value == 0
    }
}

} // verus!
