//! The slice of the host runtime that the program reads: an owner
//! identifier and the account it gates.

use vstd::prelude::*;

verus! {

/// A fixed-width identifier for the program that owns an account. The
/// program treats it as opaque: the only operation is equality.
#[derive(Clone, Copy, Debug)]
pub struct Pubkey(pub [u8; 32]);

impl View for Pubkey {
    type V = Seq<u8>;

    open spec fn view(&self) -> Seq<u8> {
        self.0@
    }
}

impl Pubkey {
    /// Byte-for-byte equality of two identifiers.
    pub fn key_eq(&self, other: &Pubkey) -> (r: bool)
        ensures
            r == (self@ == other@),
    {
        let mut i: usize = 0;
        while i < 32
            invariant
                i <= 32,
                forall|j: int| 0 <= j < i ==> self@[j] == other@[j],
            decreases 32 - i,
        {
            if self.0[i] != other.0[i] {
                return false;
            }
            i += 1;
        }
        proof {
            assert(self@ =~= other@);
        }
        true
    }
}

impl Default for Pubkey {
    /// The all-zero identifier.
    fn default() -> (r: Pubkey)
        ensures
            r@.len() == 32,
            forall|i: int| 0 <= i < 32 ==> r@[i] == 0u8,
    {
        Pubkey([0u8; 32])
    }
}

/// One account handle as the host hands it in: the identifier of the
/// program that owns it, its raw byte buffer, and whether the transaction
/// declared it writable. The sole authorization gate of this program is
/// the owner check; the writable flag is carried but, as in the host's
/// contract, not consulted here.
#[derive(Debug)]
pub struct AccountView {
    /// Identifier of the program that owns this account.
    pub owner: Pubkey,
    /// The raw persisted bytes of the account.
    pub data: Vec<u8>,
    /// Whether the surrounding transaction declared the account writable.
    pub is_writable: bool,
}

} // verus!
