//! Opening an escrow of tokens.

use vstd::prelude::*;
use crate::address::Address;
use crate::error::EscrowError;
use crate::instructions::initialize_sol::{open_terms, opened_terms};
use crate::instructions::release_token::TokenAccountView;
use crate::state::{EscrowAccount, TokenEscrow};

verus! {

/// The accounts of the instruction, and what the ledger tells it.
#[derive(Clone, Copy, Debug, PartialEq, Eq)]
pub struct InitializeToken {
    /// Who pays the rent.
    pub payer: Address,
    pub buyer: Address,
    pub seller: Address,
    pub token_mint: Address,
    /// The token account that the deposit comes from.
    pub buyer_token_account: TokenAccountView,
    /// The bump seed of the escrow account's derived address.
    pub bump: u8,
    /// The ledger's clock.
    pub unix_timestamp: i64,
}

/// The escrow that the instruction opens, or why it is refused: the deposit
/// must come from a token account of the mint that the buyer owns
/// (`ValidationFailed`) and be positive (`InvalidPaymentParameters`); then the
/// terms must be acceptable.
pub open spec fn initialize_token_outcome(
    ctx: InitializeToken,
    moderator: Option<Address>,
    unique_id: [u8; 20],
    required_signatures: u8,
    unlock_hours: u64,
    amount: u64,
) -> Result<EscrowAccount, EscrowError> {
    if ctx.buyer_token_account.mint != ctx.token_mint || ctx.buyer_token_account.owner
        != ctx.buyer {
        Err(EscrowError::ValidationFailed)
    } else if amount == 0 {
        Err(EscrowError::InvalidPaymentParameters)
    } else {
        opened_terms(
            ctx.payer,
            ctx.buyer,
            ctx.seller,
            ctx.bump,
            ctx.unix_timestamp,
            moderator,
            unique_id,
            required_signatures,
            unlock_hours,
            amount,
        )
    }
}

/// Opens an escrow of tokens holding `amount`, which the token program moves
/// from the buyer's token account to the escrow's.
pub fn handler(
    ctx: &InitializeToken,
    moderator: Option<Address>,
    unique_id: [u8; 20],
    required_signatures: u8,
    unlock_hours: u64,
    amount: u64,
) -> (r: Result<TokenEscrow, EscrowError>)
    ensures
        match r {
            Ok(escrow) => initialize_token_outcome(
                *ctx,
                moderator,
                unique_id,
                required_signatures,
                unlock_hours,
                amount,
            ) == Ok::<EscrowAccount, EscrowError>(escrow.base) && escrow.mint == ctx.token_mint,
            Err(e) => initialize_token_outcome(
                *ctx,
                moderator,
                unique_id,
                required_signatures,
                unlock_hours,
                amount,
            ) == Err::<EscrowAccount, EscrowError>(e),
        },
{
    if ctx.buyer_token_account.mint != ctx.token_mint || ctx.buyer_token_account.owner
        != ctx.buyer {
        return Err(EscrowError::ValidationFailed);
    }
    if amount == 0 {
        return Err(EscrowError::InvalidPaymentParameters);
    }
    match open_terms(
        ctx.payer,
        ctx.buyer,
        ctx.seller,
        ctx.bump,
        ctx.unix_timestamp,
        moderator,
        unique_id,
        required_signatures,
        unlock_hours,
        amount,
    ) {
        Ok(base) => Ok(TokenEscrow { base, mint: ctx.token_mint }),
        Err(e) => Err(e),
    }
}

} // verus!
