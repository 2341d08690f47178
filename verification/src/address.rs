//! Account addresses: fixed 32-byte identities of the parties and programs.

use vstd::prelude::*;
use crate::bytes::views;

verus! {

/// A 32-byte account address (a party's public key or a program-derived address).
#[derive(Clone, Copy, Debug, Hash, Eq)]
pub struct Address {
    pub bytes: [u8; 32],
}

impl View for Address {
    type V = Seq<u8>;

    /// The 32 bytes of the address.
    open spec fn view(&self) -> Seq<u8> {
        self.bytes@
    }
}

/// Two addresses are equal exactly when their 32 bytes are.
pub proof fn lemma_address_eq(a: Address, b: Address)
    ensures
        a@.len() == 32,
        (a == b) <==> (a@ == b@),
{
    if a@ == b@ {
        assert(a.bytes =~= b.bytes);
    }
}

impl PartialEq for Address {
    fn eq(&self, other: &Address) -> (r: bool) {
        let mut i: usize = 0;
        while i < 32
            invariant
                i <= 32,
                forall|j: int| 0 <= j < i ==> self.bytes@[j] == other.bytes@[j],
            decreases 32 - i,
        {
            if self.bytes[i] != other.bytes[i] {
                return false;
            }
            i += 1;
        }
        assert(self.bytes =~= other.bytes);
        true
    }
}

impl vstd::std_specs::cmp::PartialEqSpecImpl for Address {
    open spec fn obeys_eq_spec() -> bool {
        true
    }

    open spec fn eq_spec(&self, other: &Address) -> bool {
        *self == *other
    }
}

/// The bytes of the program that verifies Ed25519 signatures.
pub const ED25519_PROGRAM_ID: [u8; 32] = [
    3, 125, 70, 214, 124, 147, 251, 190, 18, 249, 66, 143, 131, 141, 64, 255,
    5, 112, 116, 73, 39, 244, 138, 100, 252, 202, 112, 68, 128, 0, 0, 0,
];

/// The bytes of the system program: all zero.
pub const SYSTEM_PROGRAM_ID: [u8; 32] = [
    0, 0, 0, 0, 0, 0, 0, 0, 0, 0, 0, 0, 0, 0, 0, 0,
    0, 0, 0, 0, 0, 0, 0, 0, 0, 0, 0, 0, 0, 0, 0, 0,
];

/// The bytes of the token program.
pub const TOKEN_PROGRAM_ID: [u8; 32] = [
    6, 221, 246, 225, 215, 101, 161, 147, 217, 203, 225, 70, 206, 235, 121, 172,
    28, 180, 133, 237, 95, 91, 55, 145, 58, 140, 245, 133, 126, 255, 0, 169,
];

/// The bytes of the account that holds the ledger's clock.
pub const CLOCK_SYSVAR_ID: [u8; 32] = [
    6, 167, 213, 23, 24, 199, 116, 201, 40, 86, 99, 152, 105, 29, 94, 182,
    139, 94, 184, 163, 155, 75, 109, 92, 115, 85, 91, 33, 0, 0, 0, 0,
];

/// The bytes of the account that holds the rent parameters.
pub const RENT_SYSVAR_ID: [u8; 32] = [
    6, 167, 213, 23, 25, 44, 92, 81, 33, 140, 201, 76, 61, 74, 241, 127,
    88, 218, 238, 8, 155, 161, 253, 68, 227, 219, 217, 138, 0, 0, 0, 0,
];

impl Address {
    /// Whether this address has exactly the bytes `id`.
    pub fn is(&self, id: &[u8; 32]) -> (r: bool)
        ensures
            r == (self@ == id@),
    {
        let mut i: usize = 0;
        while i < 32
            invariant
                i <= 32,
                forall|j: int| 0 <= j < i ==> self.bytes@[j] == id@[j],
            decreases 32 - i,
        {
            if self.bytes[i] != id[i] {
                return false;
            }
            i += 1;
        }
        assert(self.bytes@ =~= id@);
        true
    }

    /// The address with the bytes `id`.
    pub fn new(id: [u8; 32]) -> (a: Address)
        ensures
            a@ == id@,
    {
        Address { bytes: id }
    }
}

/// What deriving a program address from `seeds` for the program `program_id`
/// gives: the address and its bump seed, or nothing where no bump seed yields one.
pub uninterp spec fn program_address(seeds: Seq<Seq<u8>>, program_id: Seq<u8>) -> Option<
    (Seq<u8>, u8),
>;

/// Calls `solana_pubkey::Pubkey::try_find_program_address`. The result is a
/// function of the seeds and the program alone (a hash of them, tried with
/// bump seeds from 255 downwards), so it is named rather than written out:
/// the contract says only that the call returns `program_address` of its arguments.
#[verifier::external_body]
pub(crate) fn try_find_program_address(seeds: &Vec<Vec<u8>>, program_id: &Address) -> (r: Option<
    (Address, u8),
>)
    ensures
        match r {
            Some((address, bump)) => program_address(views(seeds@), program_id@) == Some(
                (address@, bump),
            ),
            None => program_address(views(seeds@), program_id@) is None,
        },
{
    let parts: Vec<&[u8]> = seeds.iter().map(|seed| seed.as_slice()).collect();
    let program = solana_pubkey::Pubkey::new_from_array(program_id.bytes);
    match solana_pubkey::Pubkey::try_find_program_address(&parts, &program) {
        Some((key, bump)) => Some((Address { bytes: key.to_bytes() }, bump)),
        None => None,
    }
}

} // verus!
