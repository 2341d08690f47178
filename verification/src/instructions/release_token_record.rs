//! Release of an escrow of tokens held in the pool of their mint.

use vstd::prelude::*;
use crate::address::Address;
use crate::bytes::views;
use crate::error::EscrowError;
use crate::instructions::release_token::TokenAccountView;
use crate::payment::total;
use crate::pool::{
    pool_payments, record_completed, record_release_refusal, release_record, EscrowRecord,
    FundPool, RecordRelease,
};
use crate::state::TokenType;
use crate::utils::CompanionInstruction;

verus! {

/// The accounts of the instruction, and what the ledger tells it.
#[derive(Clone, Debug, PartialEq, Eq)]
pub struct ReleaseTokenRecord {
    pub initiator: Address,
    pub escrow_record: EscrowRecord,
    pub token_pool: FundPool,
    /// The token account that holds the pool's tokens.
    pub pool_token_account: TokenAccountView,
    /// The ledger's clock.
    pub unix_timestamp: i64,
    /// The index of this instruction in its transaction.
    pub instruction_index: u16,
    /// The instruction right before this one, if there is one.
    pub previous_instruction: Option<CompanionInstruction>,
    /// The token accounts to be paid, in the order of the payments; at most four.
    pub recipients: Vec<TokenAccountView>,
}

/// The keys of a list of token accounts.
pub open spec fn keys(accounts: Seq<TokenAccountView>) -> Seq<Address> {
    accounts.map_values(|a: TokenAccountView| a.key)
}

/// Whether the pool and every token account hold the tokens of the record's
/// asset, and the pool's token account is the one the pool names.
pub open spec fn token_accounts_valid(ctx: ReleaseTokenRecord) -> bool {
    &&& ctx.escrow_record.asset matches TokenType::Spl(mint)
    &&& ctx.token_pool.asset == TokenType::Spl(mint)
    &&& ctx.token_pool.token_account == Some(ctx.pool_token_account.key)
    &&& ctx.pool_token_account.mint == mint
    &&& forall|i: int| 0 <= i < ctx.recipients@.len() ==> ctx.recipients@[i].mint == mint
}

/// Why the release of a pooled escrow of tokens is refused, if it is: the
/// token accounts must be valid (`InvalidTokenAccount`), and the release
/// acceptable to the pool.
pub open spec fn token_release_refusal(
    ctx: ReleaseTokenRecord,
    payment_amounts: Seq<u64>,
    signatures: Seq<Seq<u8>>,
) -> Option<EscrowError> {
    if !token_accounts_valid(ctx) {
        Some(EscrowError::InvalidTokenAccount)
    } else {
        record_release_refusal(
            ctx.escrow_record,
            ctx.token_pool,
            ctx.initiator,
            keys(ctx.recipients@),
            payment_amounts,
            signatures,
            ctx.unix_timestamp,
            ctx.instruction_index,
            ctx.previous_instruction,
        )
    }
}

/// Checks the token accounts of a release and lists the recipients' keys.
#[verifier::loop_isolation(false)]
pub fn process_token_payments(ctx: &ReleaseTokenRecord) -> (r: Option<Vec<Address>>)
    ensures
        match r {
            Some(recipients) => token_accounts_valid(*ctx) && recipients@ == keys(ctx.recipients@),
            None => !token_accounts_valid(*ctx),
        },
{
    let mint = match ctx.escrow_record.asset {
        TokenType::Spl(mint) => mint,
        TokenType::Sol => {
            return None;
        },
    };
    let pool_holds_mint = match ctx.token_pool.asset {
        TokenType::Spl(m) => m == mint,
        TokenType::Sol => false,
    };
    let pool_names_account = match ctx.token_pool.token_account {
        Some(key) => key == ctx.pool_token_account.key,
        None => false,
    };
    if !pool_holds_mint || !pool_names_account || ctx.pool_token_account.mint != mint {
        return None;
    }
    let mut recipients: Vec<Address> = Vec::new();
    let mut i: usize = 0;
    while i < ctx.recipients.len()
        invariant
            i <= ctx.recipients.len(),
            recipients@.len() == i,
            forall|j: int| 0 <= j < i ==> ctx.recipients@[j].mint == mint,
            forall|j: int| 0 <= j < i ==> recipients@[j] == ctx.recipients@[j].key,
        decreases ctx.recipients.len() - i,
    {
        if ctx.recipients[i].mint != mint {
            return None;
        }
        recipients.push(ctx.recipients[i].key);
        i += 1;
    }
    assert(recipients@ =~= keys(ctx.recipients@));
    Some(recipients)
}

/// Releases a pooled escrow of tokens: the pool's token account pays the
/// recipients, the pool writes the total off its balance, and the record is completed.
pub fn handler(ctx: &ReleaseTokenRecord, payment_amounts: &[u64], signatures: &[Vec<u8>]) -> (r: Result<
    RecordRelease,
    EscrowError,
>)
    ensures
        match r {
            Ok(release) => {
                &&& token_release_refusal(*ctx, payment_amounts@, views(signatures@)) is None
                &&& release.record == record_completed(ctx.escrow_record, ctx.unix_timestamp)
                &&& release.pool == (FundPool {
                    total_balance: (ctx.token_pool.total_balance - total(payment_amounts@)) as u64,
                    ..ctx.token_pool
                })
                &&& release.payments@ == pool_payments(
                    keys(ctx.recipients@),
                    payment_amounts@,
                    payment_amounts.len() as int,
                )
            },
            Err(e) => token_release_refusal(*ctx, payment_amounts@, views(signatures@)) == Some(e),
        },
{
    let recipients = match process_token_payments(ctx) {
        Some(recipients) => recipients,
        None => {
            return Err(EscrowError::InvalidTokenAccount);
        },
    };
    release_record(
        &ctx.escrow_record,
        &ctx.token_pool,
        &ctx.initiator,
        recipients.as_slice(),
        payment_amounts,
        signatures,
        ctx.unix_timestamp,
        ctx.instruction_index,
        &ctx.previous_instruction,
    )
}

} // verus!
