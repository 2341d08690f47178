//! Opening the pool of the tokens of one mint.

use vstd::prelude::*;
use crate::address::Address;
use crate::pool::{open_pool, opened_pool, FundPool};
use crate::state::TokenType;

verus! {

/// The accounts of the instruction.
#[derive(Clone, Copy, Debug, PartialEq, Eq)]
pub struct InitializeTokenPool {
    pub authority: Address,
    pub token_mint: Address,
    /// The token account that holds the pool's tokens.
    pub pool_token_account: Address,
    /// The bump seed of the pool account's derived address.
    pub bump: u8,
}

/// Opens the pool of the tokens of the mint under the authority that signs.
pub fn handler(ctx: &InitializeTokenPool) -> (pool: FundPool)
    ensures
        pool == opened_pool(
            ctx.authority,
            TokenType::Spl(ctx.token_mint),
            Some(ctx.pool_token_account),
            ctx.bump,
        ),
{
    open_pool(ctx.authority, TokenType::Spl(ctx.token_mint), Some(ctx.pool_token_account), ctx.bump)
}

} // verus!
