//! Opening an escrow of the native coin in the pool.

use vstd::prelude::*;
use crate::address::Address;
use crate::error::EscrowError;
use crate::pool::{open_record, record_opened, EscrowRecord, FundPool};

verus! {

/// The accounts of the instruction, and what the ledger tells it.
#[derive(Clone, Copy, Debug, PartialEq, Eq)]
pub struct InitializeSolRecord {
    pub buyer: Address,
    pub seller: Address,
    pub sol_pool: FundPool,
    /// The bump seed of the record account's derived address.
    pub bump: u8,
    /// The ledger's clock.
    pub unix_timestamp: i64,
}

/// Opens an escrow of `amount` in the pool of the native coin.
pub fn handler(
    ctx: &InitializeSolRecord,
    moderator: Option<Address>,
    unique_id: [u8; 20],
    required_signatures: u8,
    unlock_hours: u64,
    amount: u64,
) -> (r: Result<(EscrowRecord, FundPool), EscrowError>)
    ensures
        r == record_opened(
            ctx.sol_pool,
            ctx.buyer,
            ctx.seller,
            ctx.bump,
            ctx.unix_timestamp,
            moderator,
            unique_id,
            required_signatures,
            unlock_hours,
            amount,
        ),
{
    open_record(
        &ctx.sol_pool,
        ctx.buyer,
        ctx.seller,
        ctx.bump,
        ctx.unix_timestamp,
        moderator,
        unique_id,
        required_signatures,
        unlock_hours,
        amount,
    )
}

} // verus!
