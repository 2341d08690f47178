//! Token accounts of the token program, as far as the escrow reads them.

use vstd::prelude::*;
use spl_token::solana_program::program_pack::Pack;
use crate::address::Address;
use crate::error::ProgramError;

verus! {

/// The size of a token account.
pub const TOKEN_ACCOUNT_LEN: usize = 165;

/// Whether the four bytes at `at` are the tag of an optional field: 0 or 1,
/// then three zero bytes.
pub open spec fn option_tag_ok(data: Seq<u8>, at: int) -> bool {
    &&& data[at] == 0 || data[at] == 1
    &&& data[at + 1] == 0
    &&& data[at + 2] == 0
    &&& data[at + 3] == 0
}

/// The mint of the token account whose bytes are `data`. A token account has
/// 165 bytes: the mint in bytes 0 to 31, the owner, the amount, an optional
/// delegate with its tag at byte 72, the state at byte 108 (0 for a blank
/// account, 1 or 2 for one in use), an optional native amount with its tag at
/// byte 109, the delegated amount, and an optional close authority with its
/// tag at byte 129. Bytes of another length or with a tag or state out of
/// range are invalid; a blank account is uninitialized.
pub open spec fn token_account_mint(data: Seq<u8>) -> Result<Seq<u8>, ProgramError> {
    if data.len() != TOKEN_ACCOUNT_LEN || !option_tag_ok(data, 72) || data[108] > 2 || !option_tag_ok(data, 109)
        || !option_tag_ok(data, 129) {
        Err(ProgramError::InvalidAccountData)
    } else if data[108] == 0 {
        Err(ProgramError::UninitializedAccount)
    } else {
        Ok(data.subrange(0, 32))
    }
}

/// Calls `spl_token::state::Account::unpack` on the bytes of a token account
/// and hands back the mint. The contract restates what the unpacking accepts:
/// exactly 165 bytes, well-formed tags of the three optional fields, a state
/// byte of 1 or 2; and which of its two errors it gives otherwise.
#[verifier::external_body]
pub(crate) fn unpack_token_account_mint(data: &[u8]) -> (r: Result<Address, ProgramError>)
    ensures
        match r {
            Ok(mint) => token_account_mint(data@) == Ok::<Seq<u8>, ProgramError>(mint@),
            Err(e) => token_account_mint(data@) == Err::<Seq<u8>, ProgramError>(e),
        },
{
    match spl_token::state::Account::unpack(data) {
        Ok(account) => Ok(Address { bytes: account.mint.to_bytes() }),
        Err(spl_token::solana_program::program_error::ProgramError::UninitializedAccount) => Err(
            ProgramError::UninitializedAccount,
        ),
        Err(_) => Err(ProgramError::InvalidAccountData),
    }
}

} // verus!
