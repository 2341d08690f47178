use escrow_program::address::{Address, ED25519_PROGRAM_ID};
use escrow_program::error::EscrowError;
use escrow_program::instructions::initialize_sol::{handler as initialize_sol, InitializeSol};
use escrow_program::instructions::release_sol::{
    handler as release_sol, transfer_sol_to_recipients, LamportAccount, ReleaseSol, SolPayment,
};
use escrow_program::message::construct_message;
use escrow_program::state::{EscrowAccount, SolEscrow};
use escrow_program::utils::{
    close_escrow_and_return_rent, process_release, verify_payment_amounts,
    verify_signatures_with_timelock, verify_signatures_without_timelock, CompanionInstruction,
};

const RENT: u64 = 2_000_000;
const NOW: i64 = 1_700_000_000;

fn key(n: u8) -> Address {
    Address { bytes: [n; 32] }
}

fn buyer() -> Address {
    key(1)
}

fn seller() -> Address {
    key(2)
}

fn moderator() -> Address {
    key(3)
}

fn sig_of(party: &Address) -> Vec<u8> {
    vec![party.bytes[0] + 100; 64]
}

fn packet(entries: &[(Address, Vec<u8>, Vec<u8>)]) -> Vec<u8> {
    let mut data = vec![entries.len() as u8, 0];
    let mut payload: Vec<u8> = Vec::new();
    let base = 2 + 14 * entries.len();
    for (public_key, signature, message) in entries {
        let public_key_offset = base + payload.len();
        payload.extend_from_slice(&public_key.bytes);
        let signature_offset = base + payload.len();
        payload.extend_from_slice(signature);
        let message_offset = base + payload.len();
        payload.extend_from_slice(message);
        data.extend_from_slice(&(signature_offset as u16).to_le_bytes());
        data.extend_from_slice(&u16::MAX.to_le_bytes());
        data.extend_from_slice(&(public_key_offset as u16).to_le_bytes());
        data.extend_from_slice(&u16::MAX.to_le_bytes());
        data.extend_from_slice(&(message_offset as u16).to_le_bytes());
        data.extend_from_slice(&(message.len() as u16).to_le_bytes());
        data.extend_from_slice(&u16::MAX.to_le_bytes());
    }
    data.extend_from_slice(&payload);
    data
}

/// The companion instruction in which `signers` sign `message`.
fn signed_by(signers: &[Address], message: &[u8]) -> Option<CompanionInstruction> {
    let entries: Vec<(Address, Vec<u8>, Vec<u8>)> =
        signers.iter().map(|s| (*s, sig_of(s), message.to_vec())).collect();
    Some(CompanionInstruction {
        program_id: Address { bytes: ED25519_PROGRAM_ID },
        data: packet(&entries),
    })
}

fn signatures(signers: &[Address]) -> Vec<Vec<u8>> {
    signers.iter().map(sig_of).collect()
}

/// A 2-of-3 escrow of 1000 opened at `NOW`.
fn escrow(unlock_hours: u64) -> SolEscrow {
    let ctx = InitializeSol {
        payer: buyer(),
        buyer: buyer(),
        seller: seller(),
        bump: 254,
        unix_timestamp: NOW,
    };
    initialize_sol(&ctx, Some(moderator()), [9u8; 20], 2, unlock_hours, 1000).unwrap()
}

fn release_ctx(
    escrow_account: SolEscrow,
    recipients: Vec<LamportAccount>,
    now: i64,
    previous_instruction: Option<CompanionInstruction>,
) -> ReleaseSol {
    ReleaseSol {
        initiator: buyer(),
        escrow_account,
        escrow_lamports: RENT + 1000,
        unix_timestamp: now,
        instruction_index: 1,
        previous_instruction,
        buyer: LamportAccount { key: buyer(), lamports: 50 },
        recipients,
    }
}

fn recipient_a() -> LamportAccount {
    LamportAccount { key: key(21), lamports: 10 }
}

fn recipient_b() -> LamportAccount {
    LamportAccount { key: key(22), lamports: 0 }
}

#[test]
fn initialize_sets_the_terms() {
    let e = escrow(0);
    assert_eq!(
        e.base,
        EscrowAccount {
            is_initialized: true,
            buyer: buyer(),
            seller: seller(),
            moderator: Some(moderator()),
            payer_address: buyer(),
            required_signatures: 2,
            unlock_time: 0,
            unique_id: [9u8; 20],
            amount: 1000,
            bump: 254,
        }
    );
    assert_eq!(escrow(1).base.unlock_time, NOW + 3600);
}

#[test]
fn initialize_rejects_bad_thresholds() {
    let ctx = InitializeSol {
        payer: buyer(),
        buyer: buyer(),
        seller: seller(),
        bump: 1,
        unix_timestamp: NOW,
    };
    assert_eq!(
        initialize_sol(&ctx, None, [0u8; 20], 0, 0, 5),
        Err(EscrowError::InvalidRequiredSignatures)
    );
    assert_eq!(
        initialize_sol(&ctx, None, [0u8; 20], 3, 0, 5),
        Err(EscrowError::InvalidRequiredSignatures)
    );
    assert!(initialize_sol(&ctx, Some(moderator()), [0u8; 20], 3, 0, 5).is_ok());
    assert_eq!(
        initialize_sol(&ctx, Some(moderator()), [0u8; 20], 4, 0, 5),
        Err(EscrowError::InvalidRequiredSignatures)
    );
    assert_eq!(
        initialize_sol(&ctx, None, [0u8; 20], 1, u64::MAX, 5),
        Err(EscrowError::AmountOverflow)
    );
}

#[test]
fn two_of_three_release_pays_both_recipients_and_closes() {
    let e = escrow(0);
    let recipients = vec![recipient_a(), recipient_b()];
    let amounts = [600u64, 400];
    let message =
        construct_message(&e.base.unique_id, &[Some(key(21)), Some(key(22))], &amounts);
    let signers = [buyer(), seller()];
    let ctx = release_ctx(e, recipients, NOW + 10, signed_by(&signers, &message));
    let release = release_sol(&ctx, &amounts, &signatures(&signers)).unwrap();
    assert_eq!(
        release.payments,
        vec![
            SolPayment { recipient: key(21), lamports: 600, create_account: false },
            SolPayment { recipient: key(22), lamports: 400, create_account: true },
        ]
    );
    assert_eq!(release.refund, RENT);
    assert_eq!(release.buyer_lamports, 50 + RENT);
    assert_eq!(release.escrow_account.base.amount, 0);
    assert!(!release.escrow_account.base.is_initialized);
    // Nothing is made or lost.
    let paid: u64 = release.payments.iter().map(|p| p.lamports).sum();
    assert_eq!(paid + release.refund, ctx.escrow_lamports);
}

#[test]
fn only_buyer_signing_is_insufficient() {
    let e = escrow(0);
    let amounts = [600u64, 400];
    let message =
        construct_message(&e.base.unique_id, &[Some(key(21)), Some(key(22))], &amounts);
    let signers = [buyer()];
    let ctx = release_ctx(
        e,
        vec![recipient_a(), recipient_b()],
        NOW + 10,
        signed_by(&signers, &message),
    );
    assert_eq!(
        release_sol(&ctx, &amounts, &signatures(&signers)),
        Err(EscrowError::InsufficientSignatures)
    );
    // The escrow is as it was.
    assert_eq!(ctx.escrow_account.base.amount, 1000);
    assert!(ctx.escrow_account.base.is_initialized);
}

#[test]
fn after_timelock_seller_alone_releases() {
    let e = escrow(1);
    let amounts = [1000u64];
    let message = construct_message(&e.base.unique_id, &[Some(seller())], &amounts);
    let signers = [seller()];
    let recipients = vec![LamportAccount { key: seller(), lamports: 7 }];
    let ctx = release_ctx(e, recipients, NOW + 3601, signed_by(&signers, &message));
    let release = release_sol(&ctx, &amounts, &signatures(&signers)).unwrap();
    assert_eq!(
        release.payments,
        vec![SolPayment { recipient: seller(), lamports: 1000, create_account: false }]
    );
    assert_eq!(release.refund, RENT);
}

#[test]
fn before_timelock_seller_alone_is_insufficient() {
    let e = escrow(1);
    let amounts = [1000u64];
    let message = construct_message(&e.base.unique_id, &[Some(seller())], &amounts);
    let signers = [seller()];
    let recipients = vec![LamportAccount { key: seller(), lamports: 7 }];
    let ctx = release_ctx(e, recipients, NOW + 3599, signed_by(&signers, &message));
    assert_eq!(
        release_sol(&ctx, &amounts, &signatures(&signers)),
        Err(EscrowError::InsufficientSignatures)
    );
}

#[test]
fn after_timelock_quorum_without_seller_is_insufficient() {
    let e = escrow(1);
    let amounts = [1000u64];
    let message = construct_message(&e.base.unique_id, &[Some(buyer())], &amounts);
    let signers = [buyer(), moderator()];
    let recipients = vec![LamportAccount { key: buyer(), lamports: 7 }];
    let ctx = release_ctx(e, recipients, NOW + 3600, signed_by(&signers, &message));
    assert_eq!(
        release_sol(&ctx, &amounts, &signatures(&signers)),
        Err(EscrowError::InsufficientSignatures)
    );
}

#[test]
fn total_above_balance_fails_before_any_signature_check() {
    let e = escrow(0);
    let amounts = [600u64, 600];
    // No companion instruction at all: the payment check still answers first.
    let ctx = release_ctx(e, vec![recipient_a(), recipient_b()], NOW, None);
    assert_eq!(release_sol(&ctx, &amounts, &[]), Err(EscrowError::PaymentAmountExceedsEscrow));
    assert_eq!(
        process_release(&e.base, &[], &amounts, &[Some(key(21)), Some(key(22))], NOW, 0, &None),
        Err(EscrowError::PaymentAmountExceedsEscrow)
    );
}

#[test]
fn payment_checks_in_order() {
    let e = escrow(0).base;
    assert_eq!(
        verify_payment_amounts(&[1, 1, 1, 1, 1], &e),
        Err(EscrowError::TooManyRecipients)
    );
    assert_eq!(verify_payment_amounts(&[], &e), Err(EscrowError::InvalidPaymentParameters));
    assert_eq!(verify_payment_amounts(&[5, 0, 9999], &e), Err(EscrowError::ZeroPaymentAmount));
    assert_eq!(
        verify_payment_amounts(&[999, 2], &e),
        Err(EscrowError::PaymentAmountExceedsEscrow)
    );
    assert_eq!(
        verify_payment_amounts(&[u64::MAX, u64::MAX], &e),
        Err(EscrowError::PaymentAmountExceedsEscrow)
    );
    assert_eq!(verify_payment_amounts(&[999, 1], &e), Ok(()));
    assert_eq!(verify_payment_amounts(&[250, 250, 250, 250], &e), Ok(()));
}

#[test]
fn signatures_for_another_escrow_do_not_release() {
    let a = escrow(0);
    let mut b = escrow(0);
    b.base.unique_id = [8u8; 20];
    let amounts = [600u64, 400];
    let slots = [Some(key(21)), Some(key(22))];
    let message_a = construct_message(&a.base.unique_id, &slots, &amounts);
    let signers = [buyer(), seller(), moderator()];
    let companion = signed_by(&signers, &message_a);
    assert_eq!(
        verify_signatures_with_timelock(
            &a.base,
            &signatures(&signers),
            &amounts,
            &slots,
            NOW,
            1,
            &companion,
            2
        ),
        Ok(())
    );
    assert_eq!(
        verify_signatures_with_timelock(
            &b.base,
            &signatures(&signers),
            &amounts,
            &slots,
            NOW,
            1,
            &companion,
            2
        ),
        Err(EscrowError::InsufficientSignatures)
    );
}

#[test]
fn signatures_for_other_amounts_do_not_release() {
    let e = escrow(0);
    let slots = [Some(key(21)), Some(key(22))];
    let message = construct_message(&e.base.unique_id, &slots, &[600, 400]);
    let signers = [buyer(), seller()];
    let companion = signed_by(&signers, &message);
    assert_eq!(
        verify_signatures_with_timelock(
            &e.base,
            &signatures(&signers),
            &[400, 600],
            &slots,
            NOW,
            1,
            &companion,
            2
        ),
        Err(EscrowError::InsufficientSignatures)
    );
}

#[test]
fn quorum_only_check_ignores_the_clock() {
    let mut e = escrow(1);
    e.base.unlock_time = 1;
    let slots = [Some(key(21))];
    let amounts = [10u64];
    let message = construct_message(&e.base.unique_id, &slots, &amounts);
    let only_seller = [seller()];
    assert_eq!(
        verify_signatures_without_timelock(
            &e.base,
            &signatures(&only_seller),
            &amounts,
            &slots,
            1,
            &signed_by(&only_seller, &message)
        ),
        Err(EscrowError::InsufficientSignatures)
    );
    let two = [seller(), moderator()];
    assert_eq!(
        verify_signatures_without_timelock(
            &e.base,
            &signatures(&two),
            &amounts,
            &slots,
            1,
            &signed_by(&two, &message)
        ),
        Ok(())
    );
}

#[test]
fn release_twice_fails_on_the_closed_escrow() {
    let e = escrow(0);
    let amounts = [1000u64];
    let message = construct_message(&e.base.unique_id, &[Some(key(21))], &amounts);
    let signers = [buyer(), seller()];
    let ctx = release_ctx(e, vec![recipient_a()], NOW, signed_by(&signers, &message));
    let first = release_sol(&ctx, &amounts, &signatures(&signers)).unwrap();
    let again =
        release_ctx(first.escrow_account, vec![recipient_a()], NOW, signed_by(&signers, &message));
    assert_eq!(
        release_sol(&again, &amounts, &signatures(&signers)),
        Err(EscrowError::ValidationFailed)
    );
}

#[test]
fn release_checks_accounts_and_counts() {
    let e = escrow(0);
    let mut ctx = release_ctx(e, vec![recipient_a()], NOW, None);
    ctx.buyer.key = key(77);
    assert_eq!(release_sol(&ctx, &[1], &[]), Err(EscrowError::ValidationFailed));
    let ctx = release_ctx(e, vec![recipient_a()], NOW, None);
    assert_eq!(release_sol(&ctx, &[1, 2], &[]), Err(EscrowError::InvalidRecipientCount));
    let five = vec![recipient_a(); 5];
    let ctx = release_ctx(e, five, NOW, None);
    assert_eq!(release_sol(&ctx, &[1], &[]), Err(EscrowError::InvalidRecipientCount));
    let four = vec![recipient_a(); 4];
    let ctx = release_ctx(e, four, NOW, None);
    assert_eq!(release_sol(&ctx, &[1, 1, 1, 1, 1], &[]), Err(EscrowError::InvalidRecipientCount));
    let ctx = release_ctx(e, vec![recipient_a()], NOW, None);
    assert_eq!(release_sol(&ctx, &[1], &[]), Err(EscrowError::MalformedSignaturePacket));
}

#[test]
fn transfers_check_the_recipient_and_the_funds() {
    let accounts = [recipient_a(), recipient_b()];
    assert_eq!(
        transfer_sol_to_recipients(100, &accounts, &[60, 40], &[Some(key(21)), Some(key(22))]),
        Ok((
            vec![
                SolPayment { recipient: key(21), lamports: 60, create_account: false },
                SolPayment { recipient: key(22), lamports: 40, create_account: true },
            ],
            0
        ))
    );
    assert_eq!(
        transfer_sol_to_recipients(100, &accounts, &[60, 40], &[Some(key(21)), Some(key(23))]),
        Err(EscrowError::InvalidRecipient)
    );
    assert_eq!(
        transfer_sol_to_recipients(99, &accounts, &[60, 40], &[Some(key(21)), Some(key(22))]),
        Err(EscrowError::InsufficientFunds)
    );
    // A payment without a recipient slot is not made.
    assert_eq!(
        transfer_sol_to_recipients(100, &accounts, &[60, 40], &[Some(key(21)), None]),
        Ok((vec![SolPayment { recipient: key(21), lamports: 60, create_account: false }], 40))
    );
    let rich = [LamportAccount { key: key(21), lamports: u64::MAX }];
    assert_eq!(
        transfer_sol_to_recipients(100, &rich, &[1], &[Some(key(21))]),
        Err(EscrowError::AmountOverflow)
    );
}

#[test]
fn closing_moves_everything_to_the_buyer() {
    assert_eq!(close_escrow_and_return_rent(2_000, 50), Ok((0, 2_050)));
    assert_eq!(close_escrow_and_return_rent(0, 0), Ok((0, 0)));
    assert_eq!(close_escrow_and_return_rent(1, u64::MAX), Err(EscrowError::AmountOverflow));
}

#[test]
fn one_party_in_two_entries_is_no_quorum() {
    let e = escrow(0);
    let amounts = [1000u64];
    let message = construct_message(&e.base.unique_id, &[Some(key(21))], &amounts);
    let twice = [buyer(), buyer()];
    let ctx = release_ctx(e, vec![recipient_a()], NOW, signed_by(&twice, &message));
    assert_eq!(
        release_sol(&ctx, &amounts, &signatures(&twice)),
        Err(EscrowError::InsufficientSignatures)
    );
}
