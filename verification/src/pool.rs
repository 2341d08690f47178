//! The pool ledger: escrows that share one custodial account. The pool counts
//! what it holds; each escrow is a record of its terms and its status.

use vstd::prelude::*;
use crate::address::Address;
use crate::bytes::views;
use crate::error::EscrowError;
use crate::payment::{total, total_within};
use crate::processor::{unlock_time, unlock_time_for};
use crate::state::{
    threshold_valid, EscrowAccount, PaymentTarget, TokenType, MAX_REQUIRED_SIGNATURES,
};
use crate::utils::{signature_refusal, verify_signatures_with_timelock, CompanionInstruction};

verus! {

/// Where a pooled escrow stands. Only a pending escrow can be released.
#[derive(Clone, Copy, Debug, PartialEq, Eq, Structural)]
pub enum TransactionStatus {
    Pending,
    Completed,
    Cancelled,
    Disputed,
}

/// A pool: the custodial account of all escrows of one asset.
#[derive(Clone, Copy, Debug, PartialEq, Eq)]
pub struct FundPool {
    pub authority: Address,
    pub asset: TokenType,
    /// The pool's token account, for a pool of tokens.
    pub token_account: Option<Address>,
    /// What the pool holds for all its escrows.
    pub total_balance: u64,
    /// How many escrows were opened in the pool.
    pub total_transactions: u64,
    pub is_active: bool,
    pub bump: u8,
}

/// The record of one escrow held in a pool.
#[derive(Clone, Copy, Debug, PartialEq, Eq)]
pub struct EscrowRecord {
    pub buyer: Address,
    pub seller: Address,
    pub moderator: Option<Address>,
    pub asset: TokenType,
    pub amount: u64,
    pub unlock_time: i64,
    pub required_signatures: u8,
    pub unique_id: [u8; 20],
    pub status: TransactionStatus,
    pub creation_time: i64,
    pub completion_time: Option<i64>,
    pub bump: u8,
}

/// A pool that has just been opened: active, and holding nothing.
pub open spec fn opened_pool(
    authority: Address,
    asset: TokenType,
    token_account: Option<Address>,
    bump: u8,
) -> FundPool {
    FundPool {
        authority,
        asset,
        token_account,
        total_balance: 0,
        total_transactions: 0,
        is_active: true,
        bump,
    }
}

/// Opens a pool.
pub fn open_pool(authority: Address, asset: TokenType, token_account: Option<Address>, bump: u8) -> (pool:
    FundPool)
    ensures
        pool == opened_pool(authority, asset, token_account, bump),
{
    FundPool {
        authority,
        asset,
        token_account,
        total_balance: 0,
        total_transactions: 0,
        is_active: true,
        bump,
    }
}

/// The record and the pool after an escrow of `amount` has been opened in
/// the pool, or why it is refused: the pool must be active (`PoolIsInactive`);
/// the threshold must be at least one and at most the number of parties
/// (`InvalidRequiredSignatures`); the amount must be positive (`ZeroAmount`);
/// and the unlock time, the pool's balance and its count must fit (`AmountOverflow`).
pub open spec fn record_opened(
    pool: FundPool,
    buyer: Address,
    seller: Address,
    bump: u8,
    now: i64,
    moderator: Option<Address>,
    unique_id: [u8; 20],
    required_signatures: u8,
    unlock_hours: u64,
    amount: u64,
) -> Result<(EscrowRecord, FundPool), EscrowError> {
    if !pool.is_active {
        Err(EscrowError::PoolIsInactive)
    } else if !threshold_valid(required_signatures, moderator) {
        Err(EscrowError::InvalidRequiredSignatures)
    } else if amount == 0 {
        Err(EscrowError::ZeroAmount)
    } else {
        match unlock_time_for(now, unlock_hours) {
            None => Err(EscrowError::AmountOverflow),
            Some(unlock_time) => if pool.total_balance + amount > u64::MAX
                || pool.total_transactions + 1 > u64::MAX {
                Err(EscrowError::AmountOverflow)
            } else {
                Ok(
                    (
                        EscrowRecord {
                            buyer,
                            seller,
                            moderator,
                            asset: pool.asset,
                            amount,
                            unlock_time,
                            required_signatures,
                            unique_id,
                            status: TransactionStatus::Pending,
                            creation_time: now,
                            completion_time: None,
                            bump,
                        },
                        FundPool {
                            total_balance: (pool.total_balance + amount) as u64,
                            total_transactions: (pool.total_transactions + 1) as u64,
                            ..pool
                        },
                    ),
                )
            },
        }
    }
}

/// Opens an escrow of `amount` in the pool; the buyer transfers the amount
/// to the pool's account.
pub fn open_record(
    pool: &FundPool,
    buyer: Address,
    seller: Address,
    bump: u8,
    now: i64,
    moderator: Option<Address>,
    unique_id: [u8; 20],
    required_signatures: u8,
    unlock_hours: u64,
    amount: u64,
) -> (r: Result<(EscrowRecord, FundPool), EscrowError>)
    ensures
        r == record_opened(
            *pool,
            buyer,
            seller,
            bump,
            now,
            moderator,
            unique_id,
            required_signatures,
            unlock_hours,
            amount,
        ),
{
    if !pool.is_active {
        return Err(EscrowError::PoolIsInactive);
    }
    let max_possible: u8 = if moderator.is_some() {
        MAX_REQUIRED_SIGNATURES + 1
    } else {
        MAX_REQUIRED_SIGNATURES
    };
    if required_signatures == 0 || required_signatures > max_possible {
        return Err(EscrowError::InvalidRequiredSignatures);
    }
    if amount == 0 {
        return Err(EscrowError::ZeroAmount);
    }
    let unlock: i64 = match unlock_time(now, unlock_hours) {
        Some(t) => t,
        None => {
            return Err(EscrowError::AmountOverflow);
        },
    };
    let balance: u64 = match pool.total_balance.checked_add(amount) {
        Some(sum) => sum,
        None => {
            return Err(EscrowError::AmountOverflow);
        },
    };
    let count: u64 = match pool.total_transactions.checked_add(1) {
        Some(sum) => sum,
        None => {
            return Err(EscrowError::AmountOverflow);
        },
    };
    Ok(
        (
            EscrowRecord {
                buyer,
                seller,
                moderator,
                asset: pool.asset,
                amount,
                unlock_time: unlock,
                required_signatures,
                unique_id,
                status: TransactionStatus::Pending,
                creation_time: now,
                completion_time: None,
                bump,
            },
            FundPool { total_balance: balance, total_transactions: count, ..*pool },
        ),
    )
}

impl EscrowRecord {
    /// The terms of the record, as the release rule reads them.
    pub open spec fn spec_terms(self) -> EscrowAccount {
        EscrowAccount {
            is_initialized: true,
            buyer: self.buyer,
            seller: self.seller,
            moderator: self.moderator,
            payer_address: self.buyer,
            required_signatures: self.required_signatures,
            unlock_time: self.unlock_time,
            unique_id: self.unique_id,
            amount: self.amount,
            bump: self.bump,
        }
    }

    /// The terms of the record, as the release rule reads them.
    pub fn terms(&self) -> (terms: EscrowAccount)
        ensures
            terms == self.spec_terms(),
    {
        EscrowAccount {
            is_initialized: true,
            buyer: self.buyer,
            seller: self.seller,
            moderator: self.moderator,
            payer_address: self.buyer,
            required_signatures: self.required_signatures,
            unlock_time: self.unlock_time,
            unique_id: self.unique_id,
            amount: self.amount,
            bump: self.bump,
        }
    }

    /// Whether `key` is the buyer, the seller or the moderator.
    pub open spec fn is_party(self, key: Address) -> bool {
        key == self.buyer || key == self.seller || self.moderator == Some(key)
    }
}

/// The recipients of a release, each in a filled slot.
pub open spec fn recipient_slots(recipients: Seq<Address>) -> Seq<Option<Address>> {
    recipients.map_values(|a: Address| Some(a))
}

/// The payments that the pool makes for the first `n` amounts: `amounts[i]`
/// to `recipients[i]`, but none for an amount of zero.
pub open spec fn pool_payments(recipients: Seq<Address>, amounts: Seq<u64>, n: int) -> Seq<
    PaymentTarget,
>
    decreases n,
{
    if n <= 0 {
        Seq::<PaymentTarget>::empty()
    } else if amounts[n - 1] == 0 {
        pool_payments(recipients, amounts, n - 1)
    } else {
        pool_payments(recipients, amounts, n - 1).push(
            PaymentTarget { recipient: recipients[n - 1], amount: amounts[n - 1] },
        )
    }
}

/// Why the release of a pooled escrow is refused, if it is: the initiator
/// must be a party (`InvalidSigner`); the record must be pending
/// (`InvalidTransactionStatus`); the pool must be active (`PoolIsInactive`)
/// and hold the record's amount (`InsufficientPoolBalance`); there must be at
/// most four payments (`TooManyRecipients`) and a recipient for each
/// (`InvalidRecipientCount`); the payments must add up to no more than the
/// record's amount (`PaymentAmountMismatch`); and the signatures must satisfy
/// the release rule.
pub open spec fn record_release_refusal(
    record: EscrowRecord,
    pool: FundPool,
    initiator: Address,
    recipients: Seq<Address>,
    payment_amounts: Seq<u64>,
    signatures: Seq<Seq<u8>>,
    now: i64,
    current_index: u16,
    previous: Option<CompanionInstruction>,
) -> Option<EscrowError> {
    if !record.is_party(initiator) {
        Some(EscrowError::InvalidSigner)
    } else if record.status != TransactionStatus::Pending {
        Some(EscrowError::InvalidTransactionStatus)
    } else if !pool.is_active {
        Some(EscrowError::PoolIsInactive)
    } else if pool.total_balance < record.amount {
        Some(EscrowError::InsufficientPoolBalance)
    } else if payment_amounts.len() > 4 {
        Some(EscrowError::TooManyRecipients)
    } else if payment_amounts.len() > recipients.len() {
        Some(EscrowError::InvalidRecipientCount)
    } else if total(payment_amounts) > record.amount {
        Some(EscrowError::PaymentAmountMismatch)
    } else {
        signature_refusal(
            record.spec_terms(),
            signatures,
            payment_amounts,
            recipient_slots(recipients),
            now,
            current_index,
            previous,
            record.required_signatures,
        )
    }
}

/// The record of a released escrow: completed at `now`.
pub open spec fn record_completed(record: EscrowRecord, now: i64) -> EscrowRecord {
    EscrowRecord { status: TransactionStatus::Completed, completion_time: Some(now), ..record }
}

/// What came of the release of a pooled escrow.
#[derive(Clone, Debug, PartialEq, Eq)]
pub struct RecordRelease {
    /// The record after the release.
    pub record: EscrowRecord,
    /// The pool after the release.
    pub pool: FundPool,
    /// The payments that the pool makes, in order.
    pub payments: Vec<PaymentTarget>,
}

/// Releases a pooled escrow: the pool pays `payment_amounts[i]` to
/// `recipients[i]`, its balance goes down by the total, and the record is completed.
pub fn release_record(
    record: &EscrowRecord,
    pool: &FundPool,
    initiator: &Address,
    recipients: &[Address],
    payment_amounts: &[u64],
    signatures: &[Vec<u8>],
    now: i64,
    current_index: u16,
    previous: &Option<CompanionInstruction>,
) -> (r: Result<RecordRelease, EscrowError>)
    ensures
        match r {
            Ok(release) => {
                &&& record_release_refusal(
                    *record,
                    *pool,
                    *initiator,
                    recipients@,
                    payment_amounts@,
                    views(signatures@),
                    now,
                    current_index,
                    *previous,
                ) is None
                &&& release.record == record_completed(*record, now)
                &&& release.pool == (FundPool {
                    total_balance: (pool.total_balance - total(payment_amounts@)) as u64,
                    ..*pool
                })
                &&& release.payments@ == pool_payments(
                    recipients@,
                    payment_amounts@,
                    payment_amounts.len() as int,
                )
            },
            Err(e) => record_release_refusal(
                *record,
                *pool,
                *initiator,
                recipients@,
                payment_amounts@,
                views(signatures@),
                now,
                current_index,
                *previous,
            ) == Some(e),
        },
{
    let is_party = *initiator == record.buyer || *initiator == record.seller || match record.moderator {
        Some(m) => *initiator == m,
        None => false,
    };
    if !is_party {
        return Err(EscrowError::InvalidSigner);
    }
    if !matches!(record.status, TransactionStatus::Pending) {
        return Err(EscrowError::InvalidTransactionStatus);
    }
    if !pool.is_active {
        return Err(EscrowError::PoolIsInactive);
    }
    if pool.total_balance < record.amount {
        return Err(EscrowError::InsufficientPoolBalance);
    }
    if payment_amounts.len() > 4 {
        return Err(EscrowError::TooManyRecipients);
    }
    if payment_amounts.len() > recipients.len() {
        return Err(EscrowError::InvalidRecipientCount);
    }
    let paid: u64 = match total_within(payment_amounts, record.amount) {
        Some(sum) => sum,
        None => {
            return Err(EscrowError::PaymentAmountMismatch);
        },
    };
    let slots = slots_of(recipients);
    let terms = record.terms();
    match verify_signatures_with_timelock(
        &terms,
        signatures,
        payment_amounts,
        slots.as_slice(),
        now,
        current_index,
        previous,
        record.required_signatures,
    ) {
        Ok(_) => {},
        Err(e) => {
            return Err(e);
        },
    }
    let mut payments: Vec<PaymentTarget> = Vec::new();
    let mut i: usize = 0;
    while i < payment_amounts.len()
        invariant
            i <= payment_amounts.len(),
            payment_amounts.len() <= recipients.len(),
            payments@ == pool_payments(recipients@, payment_amounts@, i as int),
        decreases payment_amounts.len() - i,
    {
        if payment_amounts[i] != 0 {
            payments.push(PaymentTarget { recipient: recipients[i], amount: payment_amounts[i] });
        }
        i += 1;
    }
    Ok(
        RecordRelease {
            record: EscrowRecord {
                status: TransactionStatus::Completed,
                completion_time: Some(now),
                ..*record
            },
            pool: FundPool { total_balance: pool.total_balance - paid, ..*pool },
            payments,
        },
    )
}

/// The recipients of a release, each in a filled slot.
pub fn slots_of(recipients: &[Address]) -> (slots: Vec<Option<Address>>)
    ensures
        slots@ == recipient_slots(recipients@),
{
    let mut slots: Vec<Option<Address>> = Vec::new();
    let mut i: usize = 0;
    while i < recipients.len()
        invariant
            i <= recipients.len(),
            slots@.len() == i,
            forall|j: int| 0 <= j < i ==> slots@[j] == Some(recipients@[j]),
        decreases recipients.len() - i,
    {
        slots.push(Some(recipients[i]));
        i += 1;
    }
    assert(slots@ =~= recipient_slots(recipients@));
    slots
}

} // verus!
