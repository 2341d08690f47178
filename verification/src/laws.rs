//! What holds of the escrow rules as a whole, whatever the inputs.

use vstd::prelude::*;
use crate::address::{Address, CLOCK_SYSVAR_ID};
use crate::ed25519::{entry, key_of, lemma_signers_distinct, proven_signers, signers_upto};
use crate::error::{custom, EscrowError, ProgramError};
use crate::instructions::release_sol::{
    closed, credited, lemma_sol_payments_conserve, release_sol_outcome, slots, ReleaseSol, SolPayment,
};
use crate::instructions::release_token::{
    accounts_valid, count_valid, owner_slots, release_token_outcome, ReleaseToken, TokenPayment,
};
use crate::instructions::sign::{sign_outcome, Sign};
use crate::message::{
    lemma_payments_len, lemma_payments_unique, lemma_payout_end, message_bytes, payments_bytes,
    payout_count,
};
use crate::payment::{lemma_sum_monotone, payment_refusal, sum_upto, total};
use crate::pool::pool_payments;
use crate::processor::{
    completed, deposit_outcome, record_in, release_outcome, signed_by, sign_outcome as sign_result,
    sol_release, target_amounts, targets_refusal, AccountView, Action, Environment,
};
use crate::quorum::{
    count_by_party, lemma_signed_count, quorum_met, release_authorized, timelock_expired, Roles,
};
use crate::state::{Escrow, EscrowAccount, EscrowState, PaymentTarget};
use crate::utils::{
    companion_signers, release_refusal, signature_refusal, CompanionInstruction,
};

verus! {

/// Before the timelock expires, a release is authorized exactly when the
/// distinct parties among the signers number at least the threshold; a signer
/// who is no party, or who appears twice, adds nothing.
pub proof fn law_quorum_before_expiry(
    signers: Set<Address>,
    roles: Roles,
    required: u8,
    unlock_time: i64,
    current_time: i64,
)
    requires
        !timelock_expired(unlock_time, current_time),
    ensures
        release_authorized(signers, roles, required, unlock_time, current_time) <==> roles.parties().intersect(
            signers,
        ).len() >= required,
        roles.parties().intersect(signers).len() == count_by_party(roles, signers),
{
    lemma_signed_count(roles, signers);
}

/// Once a timelock that is set has expired, a release is authorized exactly
/// when the seller is among the signers, whatever the threshold and whoever
/// else signed.
pub proof fn law_timelock_override(
    signers: Set<Address>,
    roles: Roles,
    required: u8,
    unlock_time: i64,
    current_time: i64,
)
    requires
        current_time >= unlock_time > 0,
    ensures
        release_authorized(signers, roles, required, unlock_time, current_time)
            <==> signers.contains(roles.seller),
{
}

/// An escrow without a timelock never unlocks by time: at every time the
/// quorum decides.
pub proof fn law_no_timelock(signers: Set<Address>, roles: Roles, required: u8, current_time: i64)
    ensures
        !timelock_expired(0, current_time),
        release_authorized(signers, roles, required, 0, current_time) <==> quorum_met(
            signers,
            roles,
            required,
        ),
{
}

/// The lamports that the first `n` actions move out of the escrow account.
pub open spec fn lamports_moved(actions: Seq<Action>, n: int) -> int
    decreases n,
{
    if n <= 0 {
        0
    } else {
        lamports_moved(actions, n - 1) + (match actions[n - 1] {
            Action::MoveLamports { lamports, .. } => lamports as int,
            _ => 0,
        })
    }
}

/// A release of the native coin pays no more than the escrow's balance,
/// leaves the record completed with a balance of zero, and moves exactly what
/// the escrow account held: the payments to the recipients, the rest to the buyer.
pub proof fn law_release_conserves(
    program_id: Address,
    accounts: Seq<AccountView>,
    env: Environment,
    targets: Seq<PaymentTarget>,
)
    requires
        release_outcome(program_id, accounts, env, targets) is Ok,
        record_in(accounts[1].data@) matches Some(e) && e.token_type is Sol,
    ensures
        ({
            let escrow = record_in(accounts[1].data@).unwrap();
            let actions = release_outcome(program_id, accounts, env, targets).unwrap();
            &&& total(target_amounts(targets)) <= escrow.amount
            &&& actions[0] == Action::Store { account: accounts[1].key, escrow: completed(escrow) }
            &&& completed(escrow).amount == 0
            &&& completed(escrow).state == EscrowState::Completed
            &&& lamports_moved(actions, actions.len() as int) == accounts[1].lamports
        }),
{
    let escrow = record_in(accounts[1].data@).unwrap();
    let actions = release_outcome(program_id, accounts, env, targets).unwrap();
    let n = targets.len() as int;
    assert(actions == sol_release(accounts, escrow, targets).unwrap());
    assert(actions.len() == n + 2);
    lemma_moves_sum(actions, targets, n);
    lemma_sum_monotone(target_amounts(targets), 0, n);
    let refund = Action::MoveLamports {
        from: accounts[1].key,
        to: escrow.buyer,
        lamports: (accounts[1].lamports - total(target_amounts(targets))) as u64,
    };
    assert(actions[n + 1] == refund);
    assert(lamports_moved(actions, n + 2) == lamports_moved(actions, n + 1) + (accounts[1].lamports
        - total(target_amounts(targets))));
}

/// The first `k` payments of a release move the sum of their amounts.
proof fn lemma_moves_sum(actions: Seq<Action>, targets: Seq<PaymentTarget>, k: int)
    requires
        0 <= k <= targets.len(),
        actions.len() == targets.len() + 2,
        actions[0] is Store,
        forall|i: int|
            0 <= i < targets.len() ==> (#[trigger] actions[1 + i] matches Action::MoveLamports {
                lamports,
                ..
            } && lamports == targets[i].amount),
    ensures
        lamports_moved(actions, 1 + k) == sum_upto(target_amounts(targets), k),
    decreases k,
{
    if k > 0 {
        lemma_moves_sum(actions, targets, k - 1);
        assert(actions[1 + (k - 1)] is MoveLamports);
    } else {
        assert(lamports_moved(actions, 0) == 0);
    }
}

/// A release of the native coin by signed messages pays no more than the
/// escrow's balance, and what it credits and what it refunds to the buyer add
/// up to what the escrow account held.
pub proof fn law_release_sol_conserves(
    ctx: ReleaseSol,
    payment_amounts: Seq<u64>,
    signatures: Seq<Seq<u8>>,
)
    requires
        release_sol_outcome(ctx, payment_amounts, signatures) is Ok,
    ensures
        ({
            let (payments, refund) = release_sol_outcome(ctx, payment_amounts, signatures).unwrap();
            &&& total(payment_amounts) <= ctx.escrow_account.base.amount
            &&& closed(ctx.escrow_account.base).amount == 0
            &&& 0 <= refund
            &&& credited(payments, payments.len() as int) + refund == ctx.escrow_lamports
        }),
{
    lemma_sol_payments_conserve(
        ctx.escrow_lamports,
        ctx.recipients@,
        payment_amounts,
        slots(ctx.recipients@),
        payment_amounts.len() as int,
    );
}

/// A release of tokens pays no more than the escrow's balance, makes one
/// transfer for each payment, of exactly its amount, and leaves the record
/// closed with a balance of zero.
pub proof fn law_release_token_pays_amounts(
    ctx: ReleaseToken,
    payment_amounts: Seq<u64>,
    signatures: Seq<Seq<u8>>,
    after_timeout: bool,
)
    requires
        release_token_outcome(ctx, payment_amounts, signatures, after_timeout) is Ok,
    ensures
        ({
            let transfers = release_token_outcome(
                ctx,
                payment_amounts,
                signatures,
                after_timeout,
            ).unwrap();
            &&& total(payment_amounts) <= ctx.escrow_account.base.amount
            &&& closed(ctx.escrow_account.base).amount == 0
            &&& transfers.len() == payment_amounts.len()
            &&& forall|i: int| 0 <= i < transfers.len() ==> transfers[i].amount == payment_amounts[i]
        }),
{
}

/// The message of an escrow begins with the escrow's identifier, so escrows
/// with different identifiers never share a message, whatever the payments.
pub proof fn law_message_names_escrow(
    id_a: Seq<u8>,
    recipients_a: Seq<Option<Address>>,
    amounts_a: Seq<u64>,
    id_b: Seq<u8>,
    recipients_b: Seq<Option<Address>>,
    amounts_b: Seq<u64>,
)
    requires
        id_a.len() == 20,
        id_b.len() == 20,
        id_a != id_b,
    ensures
        message_bytes(id_a, recipients_a, amounts_a) != message_bytes(
            id_b,
            recipients_b,
            amounts_b,
        ),
{
    let ma = message_bytes(id_a, recipients_a, amounts_a);
    let mb = message_bytes(id_b, recipients_b, amounts_b);
    assert(ma.subrange(0, 20) =~= id_a);
    assert(mb.subrange(0, 20) =~= id_b);
}

/// A message names one payment plan: two messages of escrows with
/// 20-byte identifiers are equal only if the identifiers are, they carry the
/// same number of payments, and each payment has the same recipient and amount.
pub proof fn law_message_binds_payments(
    id_a: Seq<u8>,
    recipients_a: Seq<Option<Address>>,
    amounts_a: Seq<u64>,
    id_b: Seq<u8>,
    recipients_b: Seq<Option<Address>>,
    amounts_b: Seq<u64>,
)
    requires
        id_a.len() == 20,
        id_b.len() == 20,
        message_bytes(id_a, recipients_a, amounts_a) == message_bytes(
            id_b,
            recipients_b,
            amounts_b,
        ),
    ensures
        id_a == id_b,
        payout_count(recipients_a, amounts_a) == payout_count(recipients_b, amounts_b),
        forall|i: int|
            0 <= i < payout_count(recipients_a, amounts_a) ==> recipients_a[i] == recipients_b[i]
                && amounts_a[i] == amounts_b[i],
{
    let ca = payout_count(recipients_a, amounts_a);
    let cb = payout_count(recipients_b, amounts_b);
    let pa = payments_bytes(recipients_a, amounts_a, ca);
    let pb = payments_bytes(recipients_b, amounts_b, cb);
    let m = message_bytes(id_a, recipients_a, amounts_a);
    lemma_payout_end(recipients_a, amounts_a, 0);
    lemma_payout_end(recipients_b, amounts_b, 0);
    lemma_payments_len(recipients_a, amounts_a, ca);
    lemma_payments_len(recipients_b, amounts_b, cb);
    assert(m.subrange(0, 20) =~= id_a);
    assert(m.subrange(0, 20) =~= id_b);
    assert(m.len() == 20 + 40 * ca);
    assert(m.len() == 20 + 40 * cb);
    assert(m.subrange(20, m.len() as int) =~= pa);
    assert(m.subrange(20, m.len() as int) =~= pb);
    lemma_payments_unique(recipients_a, amounts_a, recipients_b, amounts_b, ca);
}

/// A packet whose entries all carry other messages than the expected one
/// proves no signer.
pub proof fn law_other_messages_prove_nothing(
    data: Seq<u8>,
    expected_signatures: Seq<Seq<u8>>,
    expected_message: Seq<u8>,
    n: int,
)
    requires
        forall|i: int|
            0 <= i < n && (#[trigger] entry(data, i)).message_in(data) ==> entry(
                data,
                i,
            ).message_of(data) != expected_message,
    ensures
        signers_upto(data, expected_signatures, expected_message, n) matches Some(signers)
            ==> signers.len() == 0,
    decreases n,
{
    if n > 0 {
        law_other_messages_prove_nothing(data, expected_signatures, expected_message, n - 1);
        assert(entry(data, n - 1).message_in(data) ==> entry(data, n - 1).message_of(data)
            != expected_message);
    }
}

/// Signatures collected for escrow A do not release escrow B: if every entry
/// of the companion packet carries a message of an escrow with another
/// identifier than B's, then B's release, asking for at least one signature,
/// is refused at every time, whatever the recipients and amounts. This is
/// what `verify_signatures_with_timelock` then answers: an error.
pub proof fn law_replay_refused(
    escrow_b: EscrowAccount,
    id_a: Seq<u8>,
    recipients_a: Seq<Option<Address>>,
    amounts_a: Seq<u64>,
    signatures: Seq<Seq<u8>>,
    payment_amounts: Seq<u64>,
    recipients: Seq<Option<Address>>,
    current_time: i64,
    current_index: u16,
    previous: Option<CompanionInstruction>,
    required_signatures: u8,
)
    requires
        id_a.len() == 20,
        id_a != escrow_b.unique_id@,
        required_signatures >= 1,
        previous matches Some(ix) && forall|i: int|
            0 <= i < ix.data@[0] && (#[trigger] entry(ix.data@, i)).message_in(ix.data@) ==> entry(
                ix.data@,
                i,
            ).message_of(ix.data@) == message_bytes(id_a, recipients_a, amounts_a),
    ensures
        signature_refusal(
            escrow_b,
            signatures,
            payment_amounts,
            recipients,
            current_time,
            current_index,
            previous,
            required_signatures,
        ) is Some,
{
    let expected = message_bytes(escrow_b.unique_id@, recipients, payment_amounts);
    law_message_names_escrow(
        id_a,
        recipients_a,
        amounts_a,
        escrow_b.unique_id@,
        recipients,
        payment_amounts,
    );
    let data = previous.unwrap().data@;
    law_other_messages_prove_nothing(data, signatures, expected, data[0] as int);
    match companion_signers(current_index, previous, signatures, expected) {
        Ok(signers) => {
            assert(signers.len() == 0);
            assert(signers.to_set() =~= Set::<Address>::empty());
            lemma_signed_count(escrow_b.spec_roles(), signers.to_set());
        },
        Err(_) => {},
    }
}

/// A completed escrow is final: no deposit, signature or release succeeds on it.
pub proof fn law_completed_is_final(
    program_id: Address,
    accounts: Seq<AccountView>,
    env: Environment,
    amount: u64,
    targets: Seq<PaymentTarget>,
)
    requires
        accounts.len() >= 2,
        record_in(accounts[1].data@) matches Some(e) && e.state == EscrowState::Completed,
    ensures
        deposit_outcome(accounts, amount) is Err,
        sign_result(accounts) is Err,
        release_outcome(program_id, accounts, env, targets) is Err,
{
}

/// A release completes the escrow, and a second release of the completed
/// escrow fails with `AlreadyCompleted`.
pub proof fn law_release_twice(
    program_id: Address,
    accounts: Seq<AccountView>,
    env: Environment,
    targets: Seq<PaymentTarget>,
    later: Seq<AccountView>,
)
    requires
        release_outcome(program_id, accounts, env, targets) is Ok,
        later.len() == accounts.len(),
        later[2].key == accounts[2].key,
        record_in(later[1].data@) == Some(completed(record_in(accounts[1].data@).unwrap())),
    ensures
        release_outcome(program_id, accounts, env, targets).unwrap()[0] == (Action::Store {
            account: accounts[1].key,
            escrow: completed(record_in(accounts[1].data@).unwrap()),
        }),
        release_outcome(program_id, later, env, targets) == Err::<Seq<Action>, ProgramError>(
            custom(EscrowError::AlreadyCompleted),
        ),
{
}

/// Signing again changes nothing: the record after two signatures of one
/// party is the record after one, so a party never counts twice.
pub proof fn law_sign_again_changes_nothing(escrow: Escrow, signer: Address)
    requires
        signed_by(escrow, signer) is Some,
    ensures
        signed_by(signed_by(escrow, signer).unwrap(), signer) == signed_by(escrow, signer),
{
}

/// Where signing twice is an error: after a party's signature has been
/// recorded, a second one fails with `AlreadySigned`.
pub proof fn law_sign_twice_refused(ctx: Sign)
    requires
        sign_outcome(ctx) is Ok,
    ensures
        sign_outcome(Sign { escrow_account: sign_outcome(ctx).unwrap(), signer: ctx.signer })
            == Err::<Escrow, EscrowError>(EscrowError::AlreadySigned),
{
}

/// A released escrow of the native coin is closed, and a second release of
/// the closed escrow fails.
pub proof fn law_release_sol_twice(
    ctx: ReleaseSol,
    payment_amounts: Seq<u64>,
    signatures: Seq<Seq<u8>>,
    later: ReleaseSol,
)
    requires
        later.escrow_account.base == closed(ctx.escrow_account.base),
    ensures
        release_sol_outcome(later, payment_amounts, signatures) == Err::<
            (Seq<SolPayment>, int),
            EscrowError,
        >(EscrowError::ValidationFailed),
{
}

/// A payment list that fails its checks, as one that adds up to more than
/// the escrow holds does, is refused before any signature is looked at:
/// whatever the signatures and the companion instruction, the error is that
/// of the payments.
pub proof fn law_payments_checked_first(
    escrow_account: EscrowAccount,
    signatures: Seq<Seq<u8>>,
    payment_amounts: Seq<u64>,
    recipients: Seq<Option<Address>>,
    current_time: i64,
    current_index: u16,
    previous: Option<CompanionInstruction>,
)
    requires
        payment_refusal(payment_amounts, escrow_account.amount) is Some,
    ensures
        release_refusal(
            escrow_account,
            signatures,
            payment_amounts,
            recipients,
            current_time,
            current_index,
            previous,
        ) == payment_refusal(payment_amounts, escrow_account.amount),
{
}

/// The verifier returns a set of identities: whatever the packet holds, and
/// however often it holds one entry, no signer stands twice in what it proves.
pub proof fn law_signers_are_distinct(
    data: Seq<u8>,
    expected_signatures: Seq<Seq<u8>>,
    expected_message: Seq<u8>,
)
    ensures
        proven_signers(data, expected_signatures, expected_message) matches Ok(signers)
            ==> signers.no_duplicates(),
{
    lemma_signers_distinct(data, expected_signatures, expected_message, data[0] as int);
}

/// Every signer that a packet proves is the public key of an entry whose
/// message is the expected one and whose signature is an expected one.
pub proof fn law_signers_are_proven(
    data: Seq<u8>,
    expected_signatures: Seq<Seq<u8>>,
    expected_message: Seq<u8>,
    n: int,
    signer: Address,
)
    requires
        signers_upto(data, expected_signatures, expected_message, n) matches Some(signers)
            && signers.contains(signer),
    ensures
        exists|i: int|
            0 <= i < n && #[trigger] entry(data, i).message_in(data) && entry(data, i).message_of(
                data,
            ) == expected_message && entry(data, i).signature_in(data) && entry(
                data,
                i,
            ).public_key_in(data) && expected_signatures.contains(
                entry(data, i).signature_of(data),
            ) && signer == key_of(entry(data, i).public_key_of(data)),
    decreases n,
{
    if n <= 0 {
        assert(false);
    } else {
        let before = signers_upto(data, expected_signatures, expected_message, n - 1);
        let e = entry(data, n - 1);
        let after = signers_upto(data, expected_signatures, expected_message, n).unwrap();
        if before.unwrap().contains(signer) {
            law_signers_are_proven(data, expected_signatures, expected_message, n - 1, signer);
        } else {
            assert(after =~= before.unwrap().push(key_of(e.public_key_of(data))));
            let j = choose|j: int| 0 <= j < after.len() && after[j] == signer;
            assert(j == after.len() - 1);
            assert(entry(data, n - 1).message_in(data));
        }
    }
}

/// The sum of the first `n` payments.
pub open spec fn payments_total(payments: Seq<PaymentTarget>, n: int) -> int
    decreases n,
{
    if n <= 0 {
        0
    } else {
        payments_total(payments, n - 1) + payments[n - 1].amount
    }
}

/// The sum of a prefix of payments depends only on that prefix.
proof fn lemma_payments_total_prefix(a: Seq<PaymentTarget>, b: Seq<PaymentTarget>, n: int)
    requires
        0 <= n <= a.len(),
        n <= b.len(),
        forall|i: int| 0 <= i < n ==> a[i] == b[i],
    ensures
        payments_total(a, n) == payments_total(b, n),
    decreases n,
{
    if n > 0 {
        lemma_payments_total_prefix(a, b, n - 1);
    }
}

/// The pool pays exactly what it writes off: the payments of a release add up
/// to the total of the amounts, by which the pool's balance goes down.
pub proof fn law_pool_pays_total(recipients: Seq<Address>, amounts: Seq<u64>, n: int)
    requires
        0 <= n <= amounts.len(),
    ensures
        pool_payments(recipients, amounts, n).len() <= n,
        payments_total(
            pool_payments(recipients, amounts, n),
            pool_payments(recipients, amounts, n).len() as int,
        ) == sum_upto(amounts, n),
    decreases n,
{
    if n > 0 {
        law_pool_pays_total(recipients, amounts, n - 1);
        let before = pool_payments(recipients, amounts, n - 1);
        let after = pool_payments(recipients, amounts, n);
        if amounts[n - 1] != 0 {
            lemma_payments_total_prefix(before, after, before.len() as int);
        }
    }
}

/// In a release by recorded signatures the payments are checked before the
/// signatures are counted: where the call reaches the payment checks (at
/// most four payments, the clock in its place, an active escrow, the buyer or
/// the seller as initiator) and the payments fail them, the error is theirs,
/// whoever has signed. A total above the balance gives `PaymentAmountExceedsEscrow`.
pub proof fn law_recorded_release_checks_payments_first(
    program_id: Address,
    accounts: Seq<AccountView>,
    env: Environment,
    targets: Seq<PaymentTarget>,
)
    requires
        targets.len() <= 4,
        accounts.len() >= 3,
        accounts[2].key@ == CLOCK_SYSVAR_ID@,
        record_in(accounts[1].data@) matches Some(e) && e.state == EscrowState::Active && (
        accounts[0].key == e.buyer || accounts[0].key == e.seller) && targets_refusal(
            targets,
            e.amount,
        ) is Some,
    ensures
        release_outcome(program_id, accounts, env, targets) == Err::<Seq<Action>, ProgramError>(
            targets_refusal(targets, record_in(accounts[1].data@).unwrap().amount).unwrap(),
        ),
        targets.len() > 0 && (forall|i: int|
            0 <= i < targets.len() ==> targets[i].amount != 0) && total(target_amounts(targets))
            > record_in(accounts[1].data@).unwrap().amount ==> release_outcome(
            program_id,
            accounts,
            env,
            targets,
        ) == Err::<Seq<Action>, ProgramError>(custom(EscrowError::PaymentAmountExceedsEscrow)),
{
}

/// In a release by recorded signatures, once the timelock has expired the
/// seller's signature is necessary: where the call reaches the release rule
/// and the seller's key is not among the recorded signers, the release fails
/// with `InsufficientSignatures`, whoever else has signed and whatever the threshold.
pub proof fn law_recorded_release_needs_seller_after_expiry(
    program_id: Address,
    accounts: Seq<AccountView>,
    env: Environment,
    targets: Seq<PaymentTarget>,
)
    requires
        targets.len() <= 4,
        accounts.len() >= 3,
        accounts[2].key@ == CLOCK_SYSVAR_ID@,
        record_in(accounts[1].data@) matches Some(e) && e.state == EscrowState::Active && (
        accounts[0].key == e.buyer || accounts[0].key == e.seller) && targets_refusal(
            targets,
            e.amount,
        ) is None && timelock_expired(e.unlock_time, env.unix_timestamp) && !e.seller_signed
            && e.seller != e.buyer && e.moderator != Some(e.seller),
    ensures
        release_outcome(program_id, accounts, env, targets) == Err::<Seq<Action>, ProgramError>(
            custom(EscrowError::InsufficientSignatures),
        ),
{
    let e = record_in(accounts[1].data@).unwrap();
    let signed = e.spec_signed_parties();
    assert forall|i: int| 0 <= i < signed.len() implies signed[i] != e.seller by {}
    assert(!signed.to_set().contains(e.seller));
}

/// A release after timeout is only for an escrow whose timelock is set and
/// has expired: with valid accounts and a valid count of payments, an escrow
/// without a timelock, or a clock before the unlock time, gives `TimelockNotExpired`.
pub proof fn law_after_timeout_needs_expiry(
    ctx: ReleaseToken,
    payment_amounts: Seq<u64>,
    signatures: Seq<Seq<u8>>,
)
    requires
        accounts_valid(ctx),
        count_valid(ctx, payment_amounts),
        ctx.escrow_account.base.unlock_time == 0 || ctx.unix_timestamp
            < ctx.escrow_account.base.unlock_time,
    ensures
        release_token_outcome(ctx, payment_amounts, signatures, true) == Err::<
            Seq<TokenPayment>,
            EscrowError,
        >(EscrowError::TimelockNotExpired),
{
}

/// Once the timelock has expired the seller's signature is necessary for a
/// release of tokens, after timeout or not: where the accounts, the count and
/// the payments are valid and the seller is not among the signers that the
/// companion instruction proves for this release, the release fails with
/// `InsufficientSignatures`, whoever else is proven.
pub proof fn law_token_release_needs_seller_after_expiry(
    ctx: ReleaseToken,
    payment_amounts: Seq<u64>,
    signatures: Seq<Seq<u8>>,
    after_timeout: bool,
)
    requires
        accounts_valid(ctx),
        count_valid(ctx, payment_amounts),
        timelock_expired(ctx.escrow_account.base.unlock_time, ctx.unix_timestamp),
        payment_refusal(payment_amounts, ctx.escrow_account.base.amount) is None,
        companion_signers(
            ctx.instruction_index,
            ctx.previous_instruction,
            signatures,
            message_bytes(
                ctx.escrow_account.base.unique_id@,
                owner_slots(ctx.recipients@),
                payment_amounts,
            ),
        ) matches Ok(signers) && !signers.contains(ctx.escrow_account.base.seller),
    ensures
        release_token_outcome(ctx, payment_amounts, signatures, after_timeout) == Err::<
            Seq<TokenPayment>,
            EscrowError,
        >(EscrowError::InsufficientSignatures),
{
}

} // verus!
