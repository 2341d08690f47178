//! Release of an escrow of tokens: by the release rule at any time, or by
//! the seller once the timelock has expired.

use vstd::prelude::*;
use crate::address::Address;
use crate::bytes::views;
use crate::error::EscrowError;
use crate::instructions::release_sol::{closed, LamportAccount};
use crate::quorum::timelock_expired;
use crate::state::{EscrowAccount, TokenEscrow, MAX_PAYMENT_TARGETS};
use crate::utils::{
    close_escrow_and_return_rent, process_release, release_refusal, CompanionInstruction,
};

verus! {

/// A token account as far as the escrow reads it.
#[derive(Clone, Copy, Debug, PartialEq, Eq)]
pub struct TokenAccountView {
    pub key: Address,
    pub mint: Address,
    pub owner: Address,
    pub amount: u64,
}

/// The accounts of a release of tokens, and what the ledger tells it.
#[derive(Clone, Debug, PartialEq, Eq)]
pub struct ReleaseToken {
    pub initiator: Address,
    pub escrow_account: TokenEscrow,
    /// The address of the escrow account.
    pub escrow_key: Address,
    /// The lamports of the escrow account: its rent.
    pub escrow_lamports: u64,
    pub escrow_token_account: TokenAccountView,
    /// The ledger's clock.
    pub unix_timestamp: i64,
    /// The index of this instruction in its transaction.
    pub instruction_index: u16,
    /// The instruction right before this one, if there is one.
    pub previous_instruction: Option<CompanionInstruction>,
    pub buyer: LamportAccount,
    /// The owners to be paid, in the order of the payments.
    pub recipients: Vec<Address>,
    /// The token account of each owner.
    pub recipient_atas: Vec<TokenAccountView>,
}

/// The accounts of a release of tokens after the timelock has expired.
#[derive(Clone, Debug, PartialEq, Eq)]
pub struct ReleaseTokenAfterTimeout {
    pub release: ReleaseToken,
}

/// One transfer of tokens out of the escrow's token account.
#[derive(Clone, Copy, Debug, PartialEq, Eq)]
pub struct TokenPayment {
    pub destination: Address,
    pub amount: u64,
}

/// What a release of tokens does.
#[derive(Clone, Debug, PartialEq, Eq)]
pub struct TokenRelease {
    /// The transfers, in order, on the authority of the escrow account.
    pub transfers: Vec<TokenPayment>,
    /// The lamports of the escrow account; they go to the buyer, as does the
    /// rent of the escrow's token account when it is closed.
    pub refund: u64,
    /// The buyer's balance after the refund.
    pub buyer_lamports: u64,
    /// The record of the closed escrow.
    pub escrow_account: TokenEscrow,
}

/// The owners of a release, each in a filled slot.
pub open spec fn owner_slots(owners: Seq<Address>) -> Seq<Option<Address>> {
    owners.map_values(|a: Address| Some(a))
}

/// The transfers for the first `n` amounts: `amounts[i]` to `recipients[i]`.
pub open spec fn token_transfers(amounts: Seq<u64>, recipients: Seq<TokenAccountView>, n: int) -> Seq<
    TokenPayment,
> {
    Seq::new(
        n as nat,
        |i: int| TokenPayment { destination: recipients[i].key, amount: amounts[i] },
    )
}

/// Whether every recipient account holds tokens of `mint`.
pub open spec fn mints_match(mint: Address, recipients: Seq<TokenAccountView>) -> bool {
    forall|i: int| 0 <= i < recipients.len() ==> recipients[i].mint == mint
}

/// Plans the transfers of a release: `amounts[i]` goes to `recipients[i]`.
/// Every recipient account, paid or not, must hold tokens of the escrow's
/// mint, else `TokenMintMismatch`.
pub fn transfer_tokens_to_recipients(
    mint: &Address,
    amounts: &[u64],
    recipients: &[TokenAccountView],
) -> (r: Result<Vec<TokenPayment>, EscrowError>)
    requires
        amounts.len() <= recipients.len(),
    ensures
        match r {
            Ok(transfers) => mints_match(*mint, recipients@) && transfers@ == token_transfers(
                amounts@,
                recipients@,
                amounts.len() as int,
            ),
            Err(e) => e == EscrowError::TokenMintMismatch && !mints_match(*mint, recipients@),
        },
{
    let mut k: usize = 0;
    while k < recipients.len()
        invariant
            k <= recipients.len(),
            forall|j: int| 0 <= j < k ==> recipients@[j].mint == *mint,
        decreases recipients.len() - k,
    {
        if recipients[k].mint != *mint {
            return Err(EscrowError::TokenMintMismatch);
        }
        k += 1;
    }
    let mut transfers: Vec<TokenPayment> = Vec::new();
    let mut i: usize = 0;
    while i < amounts.len()
        invariant
            i <= amounts.len(),
            amounts.len() <= recipients.len(),
            transfers@.len() == i,
            forall|j: int|
                0 <= j < i ==> transfers@[j] == (TokenPayment {
                    destination: recipients@[j].key,
                    amount: amounts@[j],
                }),
        decreases amounts.len() - i,
    {
        transfers.push(TokenPayment { destination: recipients[i].key, amount: amounts[i] });
        i += 1;
    }
    assert(transfers@ =~= token_transfers(amounts@, recipients@, amounts.len() as int));
    Ok(transfers)
}

/// Whether the accounts of a release are the ones the escrow names: the
/// escrow is in use, its token account holds its mint and belongs to the
/// escrow account, and the buyer's account is the buyer's.
pub open spec fn accounts_valid(ctx: ReleaseToken) -> bool {
    let escrow = ctx.escrow_account;
    &&& escrow.base.is_initialized
    &&& ctx.escrow_token_account.mint == escrow.mint
    &&& ctx.escrow_token_account.owner == ctx.escrow_key
    &&& ctx.buyer.key == escrow.base.buyer
}

/// Whether there are between one and four payments, an owner and a token
/// account for each.
pub open spec fn count_valid(ctx: ReleaseToken, payment_amounts: Seq<u64>) -> bool {
    &&& 1 <= payment_amounts.len() <= 4
    &&& payment_amounts.len() <= ctx.recipients@.len()
    &&& ctx.recipients@.len() == ctx.recipient_atas@.len()
}

/// What a release of tokens does, or why it is refused: the accounts must be valid (`ValidationFailed`) and the payments
/// countable (`InvalidRecipientCount`); where `after_timeout` is asked for, the
/// timelock must have expired (`TimelockNotExpired`); the payments and then
/// the signatures must pass their checks; the recipient accounts must hold the
/// escrow's mint (`TokenMintMismatch`); and the buyer's balance must take the refund.
pub open spec fn release_token_outcome(
    ctx: ReleaseToken,
    payment_amounts: Seq<u64>,
    signatures: Seq<Seq<u8>>,
    after_timeout: bool,
) -> Result<Seq<TokenPayment>, EscrowError> {
    let base = ctx.escrow_account.base;
    if !accounts_valid(ctx) {
        Err(EscrowError::ValidationFailed)
    } else if !count_valid(ctx, payment_amounts) {
        Err(EscrowError::InvalidRecipientCount)
    } else if after_timeout && !timelock_expired(base.unlock_time, ctx.unix_timestamp) {
        Err(EscrowError::TimelockNotExpired)
    } else {
        match release_refusal(
            base,
            signatures,
            payment_amounts,
            owner_slots(ctx.recipients@),
            ctx.unix_timestamp,
            ctx.instruction_index,
            ctx.previous_instruction,
        ) {
            Some(e) => Err(e),
            None => if !mints_match(ctx.escrow_account.mint, ctx.recipient_atas@) {
                Err(EscrowError::TokenMintMismatch)
            } else if ctx.buyer.lamports + ctx.escrow_lamports > u64::MAX {
                Err(EscrowError::AmountOverflow)
            } else {
                Ok(
                    token_transfers(
                        payment_amounts,
                        ctx.recipient_atas@,
                        payment_amounts.len() as int,
                    ),
                )
            },
        }
    }
}

/// The owners of a release, each in a filled slot.
pub fn recipient_owner_slots(owners: &[Address]) -> (keys: Vec<Option<Address>>)
    ensures
        keys@ == owner_slots(owners@),
{
    let mut keys: Vec<Option<Address>> = Vec::new();
    let mut i: usize = 0;
    while i < owners.len()
        invariant
            i <= owners.len(),
            keys@.len() == i,
            forall|j: int| 0 <= j < i ==> keys@[j] == Some(owners@[j]),
        decreases owners.len() - i,
    {
        keys.push(Some(owners[i]));
        i += 1;
    }
    assert(keys@ =~= owner_slots(owners@));
    keys
}

fn release(
    ctx: &ReleaseToken,
    payment_amounts: &[u64],
    signatures: &[Vec<u8>],
    after_timeout: bool,
) -> (r: Result<TokenRelease, EscrowError>)
    ensures
        match r {
            Ok(release) => {
                &&& release_token_outcome(
                    *ctx,
                    payment_amounts@,
                    views(signatures@),
                    after_timeout,
                ) == Ok::<Seq<TokenPayment>, EscrowError>(release.transfers@)
                &&& release.refund == ctx.escrow_lamports
                &&& release.buyer_lamports == ctx.buyer.lamports + ctx.escrow_lamports
                &&& release.escrow_account.base == closed(ctx.escrow_account.base)
                &&& release.escrow_account.mint == ctx.escrow_account.mint
            },
            Err(e) => release_token_outcome(
                *ctx,
                payment_amounts@,
                views(signatures@),
                after_timeout,
            ) == Err::<Seq<TokenPayment>, EscrowError>(e),
        },
{
    let escrow = &ctx.escrow_account;
    let base = escrow.as_ref();
    if !base.is_initialized || ctx.escrow_token_account.mint != escrow.mint
        || ctx.escrow_token_account.owner != ctx.escrow_key || ctx.buyer.key != base.buyer {
        return Err(EscrowError::ValidationFailed);
    }
    if payment_amounts.len() < 1 || payment_amounts.len() > MAX_PAYMENT_TARGETS
        || payment_amounts.len()
        > ctx.recipients.len() || ctx.recipients.len() != ctx.recipient_atas.len() {
        return Err(EscrowError::InvalidRecipientCount);
    }
    if after_timeout && !(base.unlock_time > 0 && ctx.unix_timestamp >= base.unlock_time) {
        return Err(EscrowError::TimelockNotExpired);
    }
    let recipient_pubkeys = recipient_owner_slots(ctx.recipients.as_slice());
    match process_release(
        base,
        signatures,
        payment_amounts,
        recipient_pubkeys.as_slice(),
        ctx.unix_timestamp,
        ctx.instruction_index,
        &ctx.previous_instruction,
    ) {
        Ok(_) => {},
        Err(e) => {
            return Err(e);
        },
    }
    let transfers = match transfer_tokens_to_recipients(
        &escrow.mint,
        payment_amounts,
        ctx.recipient_atas.as_slice(),
    ) {
        Ok(transfers) => transfers,
        Err(e) => {
            return Err(e);
        },
    };
    let (_, buyer_lamports) = match close_escrow_and_return_rent(
        ctx.escrow_lamports,
        ctx.buyer.lamports,
    ) {
        Ok(balances) => balances,
        Err(e) => {
            return Err(e);
        },
    };
    Ok(
        TokenRelease {
            transfers,
            refund: ctx.escrow_lamports,
            buyer_lamports,
            escrow_account: TokenEscrow {
                base: EscrowAccount { amount: 0, is_initialized: false, ..*base },
                mint: escrow.mint,
            },
        },
    )
}

/// Releases an escrow of tokens by the release rule.
pub fn handler(ctx: &ReleaseToken, payment_amounts: &[u64], signatures: &[Vec<u8>]) -> (r: Result<
    TokenRelease,
    EscrowError,
>)
    ensures
        match r {
            Ok(release) => {
                &&& release_token_outcome(*ctx, payment_amounts@, views(signatures@), false)
                    == Ok::<Seq<TokenPayment>, EscrowError>(release.transfers@)
                &&& release.refund == ctx.escrow_lamports
                &&& release.buyer_lamports == ctx.buyer.lamports + ctx.escrow_lamports
                &&& release.escrow_account.base == closed(ctx.escrow_account.base)
                &&& release.escrow_account.mint == ctx.escrow_account.mint
            },
            Err(e) => release_token_outcome(*ctx, payment_amounts@, views(signatures@), false)
                == Err::<Seq<TokenPayment>, EscrowError>(e),
        },
{
    release(ctx, payment_amounts, signatures, false)
}

/// Releases an escrow of tokens once its timelock has expired; the release
/// rule then asks for the seller's signature.
pub fn handler_after_timeout(
    ctx: &ReleaseTokenAfterTimeout,
    payment_amounts: &[u64],
    signatures: &[Vec<u8>],
) -> (r: Result<TokenRelease, EscrowError>)
    ensures
        match r {
            Ok(release) => {
                &&& release_token_outcome(
                    ctx.release,
                    payment_amounts@,
                    views(signatures@),
                    true,
                ) == Ok::<Seq<TokenPayment>, EscrowError>(release.transfers@)
                &&& release.refund == ctx.release.escrow_lamports
                &&& release.buyer_lamports == ctx.release.buyer.lamports
                    + ctx.release.escrow_lamports
                &&& release.escrow_account.base == closed(ctx.release.escrow_account.base)
                &&& release.escrow_account.mint == ctx.release.escrow_account.mint
            },
            Err(e) => release_token_outcome(
                ctx.release,
                payment_amounts@,
                views(signatures@),
                true,
            ) == Err::<Seq<TokenPayment>, EscrowError>(e),
        },
{
    release(&ctx.release, payment_amounts, signatures, true)
}

} // verus!
