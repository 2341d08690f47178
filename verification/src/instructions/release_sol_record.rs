//! Release of an escrow of the native coin held in the pool.

use vstd::prelude::*;
use crate::address::Address;
use crate::bytes::views;
use crate::error::EscrowError;
use crate::payment::total;
use crate::pool::{
    pool_payments, record_completed, record_release_refusal, release_record, EscrowRecord,
    FundPool, RecordRelease,
};
use crate::utils::CompanionInstruction;

verus! {

/// The accounts of the instruction, and what the ledger tells it.
#[derive(Clone, Debug, PartialEq, Eq)]
pub struct ReleaseSolRecord {
    pub initiator: Address,
    pub escrow_record: EscrowRecord,
    pub sol_pool: FundPool,
    /// The ledger's clock.
    pub unix_timestamp: i64,
    /// The index of this instruction in its transaction.
    pub instruction_index: u16,
    /// The instruction right before this one, if there is one.
    pub previous_instruction: Option<CompanionInstruction>,
    /// The accounts to be paid, in the order of the payments; at most four.
    pub recipients: Vec<Address>,
}

/// Releases a pooled escrow of the native coin: the pool pays the recipients
/// and writes the total off its balance, and the record is completed.
pub fn handler(ctx: &ReleaseSolRecord, payment_amounts: &[u64], signatures: &[Vec<u8>]) -> (r: Result<
    RecordRelease,
    EscrowError,
>)
    ensures
        match r {
            Ok(release) => {
                &&& record_release_refusal(
                    ctx.escrow_record,
                    ctx.sol_pool,
                    ctx.initiator,
                    ctx.recipients@,
                    payment_amounts@,
                    views(signatures@),
                    ctx.unix_timestamp,
                    ctx.instruction_index,
                    ctx.previous_instruction,
                ) is None
                &&& release.record == record_completed(ctx.escrow_record, ctx.unix_timestamp)
                &&& release.pool == (FundPool {
                    total_balance: (ctx.sol_pool.total_balance - total(payment_amounts@)) as u64,
                    ..ctx.sol_pool
                })
                &&& release.payments@ == pool_payments(
                    ctx.recipients@,
                    payment_amounts@,
                    payment_amounts.len() as int,
                )
            },
            Err(e) => record_release_refusal(
                ctx.escrow_record,
                ctx.sol_pool,
                ctx.initiator,
                ctx.recipients@,
                payment_amounts@,
                views(signatures@),
                ctx.unix_timestamp,
                ctx.instruction_index,
                ctx.previous_instruction,
            ) == Some(e),
        },
{
    release_record(
        &ctx.escrow_record,
        &ctx.sol_pool,
        &ctx.initiator,
        ctx.recipients.as_slice(),
        payment_amounts,
        signatures,
        ctx.unix_timestamp,
        ctx.instruction_index,
        &ctx.previous_instruction,
    )
}

} // verus!
