//! Opening an escrow of tokens in the pool of their mint.

use vstd::prelude::*;
use crate::address::Address;
use crate::error::EscrowError;
use crate::instructions::release_token::TokenAccountView;
use crate::pool::{open_record, record_opened, EscrowRecord, FundPool};
use crate::state::TokenType;

verus! {

/// The accounts of the instruction, and what the ledger tells it.
#[derive(Clone, Copy, Debug, PartialEq, Eq)]
pub struct InitializeTokenRecord {
    pub buyer: Address,
    pub seller: Address,
    pub token_mint: Address,
    pub token_pool: FundPool,
    /// The token account that holds the pool's tokens.
    pub pool_token_account: TokenAccountView,
    /// The token account that the deposit comes from.
    pub buyer_token_account: TokenAccountView,
    /// The bump seed of the record account's derived address.
    pub bump: u8,
    /// The ledger's clock.
    pub unix_timestamp: i64,
}

/// Whether the token accounts are those of the pool and of the buyer: the
/// pool holds the mint, its token account is the one it names and holds the
/// mint, and the deposit comes from a token account of the mint that the buyer owns.
pub open spec fn token_accounts_valid(ctx: InitializeTokenRecord) -> bool {
    &&& ctx.token_pool.asset == TokenType::Spl(ctx.token_mint)
    &&& ctx.token_pool.token_account == Some(ctx.pool_token_account.key)
    &&& ctx.pool_token_account.mint == ctx.token_mint
    &&& ctx.buyer_token_account.mint == ctx.token_mint
    &&& ctx.buyer_token_account.owner == ctx.buyer
}

/// The record and the pool after the escrow has been opened, or why it is
/// refused: the pool must be active (`PoolIsInactive`), the token accounts
/// valid (`InvalidTokenAccount`), and the escrow acceptable to the pool.
pub open spec fn token_record_opened(
    ctx: InitializeTokenRecord,
    moderator: Option<Address>,
    unique_id: [u8; 20],
    required_signatures: u8,
    unlock_hours: u64,
    amount: u64,
) -> Result<(EscrowRecord, FundPool), EscrowError> {
    if !ctx.token_pool.is_active {
        Err(EscrowError::PoolIsInactive)
    } else if !token_accounts_valid(ctx) {
        Err(EscrowError::InvalidTokenAccount)
    } else {
        record_opened(
            ctx.token_pool,
            ctx.buyer,
            ctx.seller,
            ctx.bump,
            ctx.unix_timestamp,
            moderator,
            unique_id,
            required_signatures,
            unlock_hours,
            amount,
        )
    }
}

/// Opens an escrow of `amount` tokens in the pool of their mint.
pub fn handler(
    ctx: &InitializeTokenRecord,
    moderator: Option<Address>,
    unique_id: [u8; 20],
    required_signatures: u8,
    unlock_hours: u64,
    amount: u64,
) -> (r: Result<(EscrowRecord, FundPool), EscrowError>)
    ensures
        r == token_record_opened(
            *ctx,
            moderator,
            unique_id,
            required_signatures,
            unlock_hours,
            amount,
        ),
{
    if !ctx.token_pool.is_active {
        return Err(EscrowError::PoolIsInactive);
    }
    let pool_holds_mint = match ctx.token_pool.asset {
        TokenType::Spl(mint) => mint == ctx.token_mint,
        TokenType::Sol => false,
    };
    let pool_names_account = match ctx.token_pool.token_account {
        Some(key) => key == ctx.pool_token_account.key,
        None => false,
    };
    if !pool_holds_mint || !pool_names_account || ctx.pool_token_account.mint != ctx.token_mint
        || ctx.buyer_token_account.mint != ctx.token_mint || ctx.buyer_token_account.owner
        != ctx.buyer {
        return Err(EscrowError::InvalidTokenAccount);
    }
    open_record(
        &ctx.token_pool,
        ctx.buyer,
        ctx.seller,
        ctx.bump,
        ctx.unix_timestamp,
        moderator,
        unique_id,
        required_signatures,
        unlock_hours,
        amount,
    )
}

} // verus!
