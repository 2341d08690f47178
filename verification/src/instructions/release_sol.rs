//! Release of an escrow of the native coin.

use vstd::prelude::*;
use crate::address::Address;
use crate::bytes::views;
use crate::error::EscrowError;
use crate::state::{EscrowAccount, SolEscrow, MAX_PAYMENT_TARGETS};
use crate::utils::{
    close_escrow_and_return_rent, process_release, release_refusal, CompanionInstruction,
};

verus! {

/// An account as far as its balance matters.
#[derive(Clone, Copy, Debug, PartialEq, Eq)]
pub struct LamportAccount {
    pub key: Address,
    pub lamports: u64,
}

/// The accounts of a release of the native coin, and what the ledger tells it.
#[derive(Clone, Debug, PartialEq, Eq)]
pub struct ReleaseSol {
    pub initiator: Address,
    pub escrow_account: SolEscrow,
    /// All the lamports of the escrow account: the balance and the rent.
    pub escrow_lamports: u64,
    /// The ledger's clock.
    pub unix_timestamp: i64,
    /// The index of this instruction in its transaction.
    pub instruction_index: u16,
    /// The instruction right before this one, if there is one.
    pub previous_instruction: Option<CompanionInstruction>,
    pub buyer: LamportAccount,
    /// The accounts to be paid, in the order of the payments; at most four.
    pub recipients: Vec<LamportAccount>,
}

/// One credit of a release.
#[derive(Clone, Copy, Debug, PartialEq, Eq)]
pub struct SolPayment {
    pub recipient: Address,
    pub lamports: u64,
    /// The recipient's account holds nothing yet and is created first.
    pub create_account: bool,
}

/// What a release of the native coin does.
#[derive(Clone, Debug, PartialEq, Eq)]
pub struct SolRelease {
    /// The credits, in order; each is debited from the escrow account.
    pub payments: Vec<SolPayment>,
    /// What the escrow account holds after the credits; it goes to the buyer.
    pub refund: u64,
    /// The buyer's balance after the refund.
    pub buyer_lamports: u64,
    /// The record of the closed escrow.
    pub escrow_account: SolEscrow,
}

/// The keys of a list of accounts, each in a filled slot.
pub open spec fn slots(accounts: Seq<LamportAccount>) -> Seq<Option<Address>> {
    accounts.map_values(|a: LamportAccount| Some(a.key))
}

/// The credits for the first `n` amounts. A payment whose slot is empty is not
/// made. `InvalidRecipient` if an account is not the one its slot names;
/// `InsufficientFunds` if the escrow account cannot cover a payment;
/// `AmountOverflow` if a recipient's balance would exceed 64 bits.
pub open spec fn sol_payments(
    escrow_lamports: u64,
    accounts: Seq<LamportAccount>,
    amounts: Seq<u64>,
    recipients: Seq<Option<Address>>,
    n: int,
) -> Result<(Seq<SolPayment>, int), EscrowError>
    decreases n,
{
    if n <= 0 {
        Ok((Seq::<SolPayment>::empty(), escrow_lamports as int))
    } else {
        match sol_payments(escrow_lamports, accounts, amounts, recipients, n - 1) {
            Err(e) => Err(e),
            Ok((paid, left)) => match recipients[n - 1] {
                None => Ok((paid, left)),
                Some(key) => if accounts[n - 1].key != key {
                    Err(EscrowError::InvalidRecipient)
                } else if left < amounts[n - 1] {
                    Err(EscrowError::InsufficientFunds)
                } else if accounts[n - 1].lamports + amounts[n - 1] > u64::MAX {
                    Err(EscrowError::AmountOverflow)
                } else {
                    Ok(
                        (
                            paid.push(
                                SolPayment {
                                    recipient: key,
                                    lamports: amounts[n - 1],
                                    create_account: accounts[n - 1].lamports == 0,
                                },
                            ),
                            left - amounts[n - 1],
                        ),
                    )
                },
            },
        }
    }
}

/// The lamports of the first `n` credits.
pub open spec fn credited(payments: Seq<SolPayment>, n: int) -> int
    decreases n,
{
    if n <= 0 {
        0
    } else {
        credited(payments, n - 1) + payments[n - 1].lamports
    }
}

/// The sum of a prefix of credits depends only on that prefix.
pub proof fn lemma_credited_prefix(a: Seq<SolPayment>, b: Seq<SolPayment>, n: int)
    requires
        0 <= n <= a.len(),
        n <= b.len(),
        forall|i: int| 0 <= i < n ==> a[i] == b[i],
    ensures
        credited(a, n) == credited(b, n),
    decreases n,
{
    if n > 0 {
        lemma_credited_prefix(a, b, n - 1);
    }
}

/// Credits move lamports and make none: what is credited and what is left
/// add up to what the escrow account held.
pub proof fn lemma_sol_payments_conserve(
    escrow_lamports: u64,
    accounts: Seq<LamportAccount>,
    amounts: Seq<u64>,
    recipients: Seq<Option<Address>>,
    n: int,
)
    requires
        0 <= n,
        sol_payments(escrow_lamports, accounts, amounts, recipients, n) is Ok,
    ensures
        ({
            let (paid, left) = sol_payments(escrow_lamports, accounts, amounts, recipients, n).unwrap();
            &&& paid.len() <= n
            &&& 0 <= left
            &&& credited(paid, paid.len() as int) + left == escrow_lamports
        }),
    decreases n,
{
    if n > 0 {
        lemma_sol_payments_conserve(escrow_lamports, accounts, amounts, recipients, n - 1);
        let (before, _) = sol_payments(escrow_lamports, accounts, amounts, recipients, n - 1).unwrap();
        let (paid, _) = sol_payments(escrow_lamports, accounts, amounts, recipients, n).unwrap();
        if paid.len() > before.len() {
            lemma_credited_prefix(before, paid, before.len() as int);
        }
    }
}

/// Plans the credits of a release: `amounts[i]` goes from the escrow account
/// to `recipient_accounts[i]`, which must be the account that `recipients[i]` names.
pub fn transfer_sol_to_recipients(
    escrow_lamports: u64,
    recipient_accounts: &[LamportAccount],
    amounts: &[u64],
    recipients: &[Option<Address>],
) -> (r: Result<(Vec<SolPayment>, u64), EscrowError>)
    requires
        amounts.len() <= recipients.len(),
        amounts.len() <= recipient_accounts.len(),
    ensures
        match r {
            Ok((payments, left)) => sol_payments(
                escrow_lamports,
                recipient_accounts@,
                amounts@,
                recipients@,
                amounts.len() as int,
            ) == Ok::<(Seq<SolPayment>, int), EscrowError>((payments@, left as int)),
            Err(e) => sol_payments(
                escrow_lamports,
                recipient_accounts@,
                amounts@,
                recipients@,
                amounts.len() as int,
            ) == Err::<(Seq<SolPayment>, int), EscrowError>(e),
        },
{
    let mut payments: Vec<SolPayment> = Vec::new();
    let mut left: u64 = escrow_lamports;
    let mut i: usize = 0;
    while i < amounts.len()
        invariant
            i <= amounts.len(),
            amounts.len() <= recipients.len(),
            amounts.len() <= recipient_accounts.len(),
            sol_payments(escrow_lamports, recipient_accounts@, amounts@, recipients@, i as int)
                == Ok::<(Seq<SolPayment>, int), EscrowError>((payments@, left as int)),
        decreases amounts.len() - i,
    {
        match recipients[i] {
            Some(key) => {
                let account = &recipient_accounts[i];
                if account.key != key {
                    proof {
                        lemma_failed_stays(
                            escrow_lamports,
                            recipient_accounts@,
                            amounts@,
                            recipients@,
                            i + 1,
                            amounts.len() as int,
                        );
                    }
                    return Err(EscrowError::InvalidRecipient);
                }
                if left < amounts[i] {
                    proof {
                        lemma_failed_stays(
                            escrow_lamports,
                            recipient_accounts@,
                            amounts@,
                            recipients@,
                            i + 1,
                            amounts.len() as int,
                        );
                    }
                    return Err(EscrowError::InsufficientFunds);
                }
                if account.lamports > u64::MAX - amounts[i] {
                    proof {
                        lemma_failed_stays(
                            escrow_lamports,
                            recipient_accounts@,
                            amounts@,
                            recipients@,
                            i + 1,
                            amounts.len() as int,
                        );
                    }
                    return Err(EscrowError::AmountOverflow);
                }
                payments.push(
                    SolPayment {
                        recipient: key,
                        lamports: amounts[i],
                        create_account: account.lamports == 0,
                    },
                );
                left = left - amounts[i];
            },
            None => {},
        }
        i += 1;
    }
    Ok((payments, left))
}

/// Once a payment has failed, the release has.
pub proof fn lemma_failed_stays(
    escrow_lamports: u64,
    accounts: Seq<LamportAccount>,
    amounts: Seq<u64>,
    recipients: Seq<Option<Address>>,
    k: int,
    n: int,
)
    requires
        0 <= k <= n,
        sol_payments(escrow_lamports, accounts, amounts, recipients, k) is Err,
    ensures
        sol_payments(escrow_lamports, accounts, amounts, recipients, n) == sol_payments(
            escrow_lamports,
            accounts,
            amounts,
            recipients,
            k,
        ),
    decreases n - k,
{
    if k < n {
        lemma_failed_stays(escrow_lamports, accounts, amounts, recipients, k, n - 1);
    }
}

/// The record of a closed escrow: nothing left in it, and no longer in use.
pub open spec fn closed(base: EscrowAccount) -> EscrowAccount {
    EscrowAccount { amount: 0, is_initialized: false, ..base }
}

/// What a release of the native coin does, or why it is refused. The escrow
/// must be in use and the buyer's account the buyer's (`ValidationFailed`);
/// there may be at most four recipients and no more payments than recipients
/// (`InvalidRecipientCount`); the payments and then the signatures must pass
/// their checks; the credits must be payable; and the buyer's balance must
/// take the refund.
pub open spec fn release_sol_outcome(
    ctx: ReleaseSol,
    payment_amounts: Seq<u64>,
    signatures: Seq<Seq<u8>>,
) -> Result<(Seq<SolPayment>, int), EscrowError> {
    let base = ctx.escrow_account.base;
    if !base.is_initialized || ctx.buyer.key != base.buyer {
        Err(EscrowError::ValidationFailed)
    } else if ctx.recipients@.len() > 4 || payment_amounts.len() > ctx.recipients@.len() {
        Err(EscrowError::InvalidRecipientCount)
    } else {
        match release_refusal(
            base,
            signatures,
            payment_amounts,
            slots(ctx.recipients@),
            ctx.unix_timestamp,
            ctx.instruction_index,
            ctx.previous_instruction,
        ) {
            Some(e) => Err(e),
            None => match sol_payments(
                ctx.escrow_lamports,
                ctx.recipients@,
                payment_amounts,
                slots(ctx.recipients@),
                payment_amounts.len() as int,
            ) {
                Err(e) => Err(e),
                Ok((payments, left)) => if ctx.buyer.lamports + left > u64::MAX {
                    Err(EscrowError::AmountOverflow)
                } else {
                    Ok((payments, left))
                },
            },
        }
    }
}

/// Releases an escrow of the native coin: checks the accounts, the payments
/// and the signatures, plans the credits, and closes the escrow in favour of
/// the buyer.
pub fn handler(ctx: &ReleaseSol, payment_amounts: &[u64], signatures: &[Vec<u8>]) -> (r: Result<
    SolRelease,
    EscrowError,
>)
    ensures
        match r {
            Ok(release) => {
                &&& release_sol_outcome(*ctx, payment_amounts@, views(signatures@)) == Ok::<
                    (Seq<SolPayment>, int),
                    EscrowError,
                >((release.payments@, release.refund as int))
                &&& release.buyer_lamports == ctx.buyer.lamports + release.refund
                &&& release.escrow_account.base == closed(ctx.escrow_account.base)
            },
            Err(e) => release_sol_outcome(*ctx, payment_amounts@, views(signatures@)) == Err::<
                (Seq<SolPayment>, int),
                EscrowError,
            >(e),
        },
{
    let base = ctx.escrow_account.as_ref();
    if !base.is_initialized || ctx.buyer.key != base.buyer {
        return Err(EscrowError::ValidationFailed);
    }
    if ctx.recipients.len() > MAX_PAYMENT_TARGETS || payment_amounts.len() > ctx.recipients.len() {
        return Err(EscrowError::InvalidRecipientCount);
    }
    let recipient_pubkeys = recipient_slots(ctx.recipients.as_slice());
    match process_release(
        base,
        signatures,
        payment_amounts,
        recipient_pubkeys.as_slice(),
        ctx.unix_timestamp,
        ctx.instruction_index,
        &ctx.previous_instruction,
    ) {
        Ok(_) => {},
        Err(e) => {
            return Err(e);
        },
    }
    let (payments, left) = match transfer_sol_to_recipients(
        ctx.escrow_lamports,
        ctx.recipients.as_slice(),
        payment_amounts,
        recipient_pubkeys.as_slice(),
    ) {
        Ok(planned) => planned,
        Err(e) => {
            return Err(e);
        },
    };
    let (_, buyer_lamports) = match close_escrow_and_return_rent(left, ctx.buyer.lamports) {
        Ok(balances) => balances,
        Err(e) => {
            return Err(e);
        },
    };
    Ok(
        SolRelease {
            payments,
            refund: left,
            buyer_lamports,
            escrow_account: SolEscrow {
                base: EscrowAccount { amount: 0, is_initialized: false, ..*base },
            },
        },
    )
}

/// The keys of a list of accounts, each in a filled slot.
pub fn recipient_slots(accounts: &[LamportAccount]) -> (keys: Vec<Option<Address>>)
    ensures
        keys@ == slots(accounts@),
{
    let mut keys: Vec<Option<Address>> = Vec::new();
    let mut i: usize = 0;
    while i < accounts.len()
        invariant
            i <= accounts.len(),
            keys@.len() == i,
            forall|j: int| 0 <= j < i ==> keys@[j] == Some(accounts@[j].key),
        decreases accounts.len() - i,
    {
        keys.push(Some(accounts[i].key));
        i += 1;
    }
    assert(keys@ =~= slots(accounts@));
    keys
}

} // verus!
