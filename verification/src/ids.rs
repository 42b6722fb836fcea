//! Account identifiers: fixed-width 32-byte addresses.

use vstd::prelude::*;

verus! {

/// The width of an account identifier in bytes.
pub const ID_BYTES: usize = 32;

/// A 32-byte account address. Identifiers are the only ambient context an
/// instruction carries: which escrow, which job and which token accounts an
/// operation touches is said entirely in identifiers.
#[derive(Debug, PartialEq, Eq)]
pub struct AccountId {
    bytes: Vec<u8>,
}

impl View for AccountId {
    type V = Seq<u8>;

    closed spec fn view(&self) -> Seq<u8> {
        self.bytes@
    }
}

impl AccountId {
    /// An identifier holds exactly 32 bytes.
    #[verifier::type_invariant]
    pub open spec fn well_formed(self) -> bool {
        self@.len() == ID_BYTES
    }

    /// Builds an identifier from exactly 32 bytes; anything else is refused.
    pub fn from_bytes(bytes: Vec<u8>) -> (r: Option<AccountId>)
        ensures
            match r {
                Some(id) => bytes@.len() == ID_BYTES && id@ == bytes@,
                None => bytes@.len() != ID_BYTES,
            },
    {
        if bytes.len() == ID_BYTES {
            Some(AccountId { bytes })
        } else {
            None
        }
    }

    /// The identifier's bytes.
    pub fn as_bytes(&self) -> (r: &Vec<u8>)
        ensures
            r@ == self@,
    {
        &self.bytes
    }

    /// Byte-for-byte equality of two identifiers.
    pub fn eq_id(&self, other: &AccountId) -> (r: bool)
        ensures
            r == (self@ == other@),
    {
        proof {
            use_type_invariant(self);
            use_type_invariant(other);
        }
        let mut i: usize = 0;
        while i < ID_BYTES
            invariant
                i <= ID_BYTES,
                self@.len() == ID_BYTES,
                other@.len() == ID_BYTES,
                forall|k: int| 0 <= k < i ==> self@[k] == other@[k],
            decreases ID_BYTES - i,
        {
            if self.bytes[i] != other.bytes[i] {
                return false;
            }
            i += 1;
        }
        proof {
            assert(self@ =~= other@);
        }
        true
    }

    /// An owned copy of the identifier's bytes.
    pub fn to_bytes(&self) -> (r: Vec<u8>)
        ensures
            r@ == self@,
    {
        proof {
            use_type_invariant(self);
        }
        let mut bytes: Vec<u8> = Vec::new();
        let mut i: usize = 0;
        while i < ID_BYTES
            invariant
                i <= ID_BYTES,
                self@.len() == ID_BYTES,
                bytes@ =~= self@.take(i as int),
            decreases ID_BYTES - i,
        {
            bytes.push(self.bytes[i]);
            i += 1;
        }
        proof {
            assert(bytes@ =~= self@);
        }
        bytes
    }

    /// A fresh identifier with the same bytes.
    pub fn copy_id(&self) -> (r: AccountId)
        ensures
            r@ == self@,
    {
        proof {
            use_type_invariant(self);
        }
        AccountId { bytes: self.to_bytes() }
    }
}

/// The canonical address under which this program is deployed
/// (base58 `RNDR111111111111111111111111111111111111111`).
pub open spec fn program_id_bytes() -> Seq<u8> {
    seq![
        6u8, 61u8, 237u8, 27u8, 97u8, 40u8, 74u8, 0u8, 131u8, 113u8, 24u8, 117u8, 24u8, 190u8,
        81u8, 40u8, 205u8, 152u8, 199u8, 106u8, 138u8, 204u8, 107u8, 220u8, 232u8, 25u8, 234u8,
        0u8, 0u8, 0u8, 0u8, 0u8,
    ]
}

/// The canonical program address as an identifier.
pub fn program_id() -> (r: AccountId)
    ensures
        r@ == program_id_bytes(),
{
    let bytes: Vec<u8> = vec![
        6u8, 61u8, 237u8, 27u8, 97u8, 40u8, 74u8, 0u8, 131u8, 113u8, 24u8, 117u8, 24u8, 190u8,
        81u8, 40u8, 205u8, 152u8, 199u8, 106u8, 138u8, 204u8, 107u8, 220u8, 232u8, 25u8, 234u8,
        0u8, 0u8, 0u8, 0u8, 0u8,
    ];
    proof {
        assert(bytes@ =~= program_id_bytes());
    }
    AccountId { bytes }
}

} // verus!
