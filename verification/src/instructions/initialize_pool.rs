//! Opening the pool of the native coin.

use vstd::prelude::*;
use crate::address::Address;
use crate::pool::{open_pool, opened_pool, FundPool};
use crate::state::TokenType;

verus! {

/// The accounts of the instruction.
#[derive(Clone, Copy, Debug, PartialEq, Eq)]
pub struct InitializeSolPool {
    pub authority: Address,
    /// The bump seed of the pool account's derived address.
    pub bump: u8,
}

/// Opens the pool of the native coin under the authority that signs.
pub fn handler(ctx: &InitializeSolPool) -> (pool: FundPool)
    ensures
        pool == opened_pool(ctx.authority, TokenType::Sol, None, ctx.bump),
{
    open_pool(ctx.authority, TokenType::Sol, None, ctx.bump)
}

} // verus!
