//! The steps of a release that is authorized by signed messages: the payment
//! checks, the signers proven by the companion instruction, and the release rule.

use vstd::prelude::*;
pub use crate::message::construct_message;
pub use crate::text::{bytes_to_hex_string, format_timestamp};
use crate::address::{Address, ED25519_PROGRAM_ID};
use crate::bytes::views;
use crate::ed25519::{proven_signers, verify_ed25519_signatures};
use crate::error::EscrowError;
use crate::message::message_bytes;
use crate::payment::{check_payments, payment_refusal};
use crate::quorum::{authorize, quorum_met, release_authorized};
use crate::state::EscrowAccount;

verus! {

/// An instruction of the transaction as the release reads it: the program it
/// is addressed to, and its data.
#[derive(Clone, Debug, PartialEq, Eq)]
pub struct CompanionInstruction {
    pub program_id: Address,
    pub data: Vec<u8>,
}

/// Checks the payments of a release against the escrow's balance: at most
/// four, at least one, none of zero, and a total within the balance.
pub fn verify_payment_amounts(payment_amounts: &[u64], escrow_account: &EscrowAccount) -> (r: Result<
    (),
    EscrowError,
>)
    ensures
        match r {
            Ok(_) => payment_refusal(payment_amounts@, escrow_account.amount) is None,
            Err(e) => payment_refusal(payment_amounts@, escrow_account.amount) == Some(e),
        },
{
    match check_payments(payment_amounts, escrow_account.amount) {
        Ok(_) => Ok(()),
        Err(e) => Err(e),
    }
}

/// The signers that the companion instruction proves for `expected_message`,
/// each once.
/// The release is the instruction at `current_index`; `previous` is the
/// instruction right before it, if there is one. The packet is malformed if
/// the release is the first instruction, if there is no instruction before it,
/// or if that instruction is not addressed to the signature-verification program.
pub open spec fn companion_signers(
    current_index: u16,
    previous: Option<CompanionInstruction>,
    expected_signatures: Seq<Seq<u8>>,
    expected_message: Seq<u8>,
) -> Result<Seq<Address>, EscrowError> {
    match previous {
        None => Err(EscrowError::MalformedSignaturePacket),
        Some(ix) => if current_index == 0 || ix.program_id@ != ED25519_PROGRAM_ID@ {
            Err(EscrowError::MalformedSignaturePacket)
        } else {
            proven_signers(ix.data@, expected_signatures, expected_message)
        },
    }
}

/// Finds the signers proven by the instruction right before the release,
/// each once. No signer at all is no error here: the release rule decides.
pub fn verify_ed25519_instructions(
    current_index: u16,
    previous: &Option<CompanionInstruction>,
    expected_signatures: &[Vec<u8>],
    expected_message: &[u8],
) -> (r: Result<Vec<Address>, EscrowError>)
    ensures
        match r {
            Ok(signers) => companion_signers(
                current_index,
                *previous,
                views(expected_signatures@),
                expected_message@,
            ) == Ok::<Seq<Address>, EscrowError>(signers@) && signers@.no_duplicates(),
            Err(e) => companion_signers(
                current_index,
                *previous,
                views(expected_signatures@),
                expected_message@,
            ) == Err::<Seq<Address>, EscrowError>(e),
        },
{
    if current_index == 0 {
        return Err(EscrowError::MalformedSignaturePacket);
    }
    match previous {
        None => Err(EscrowError::MalformedSignaturePacket),
        Some(ix) => {
            if !ix.program_id.is(&ED25519_PROGRAM_ID) {
                return Err(EscrowError::MalformedSignaturePacket);
            }
            verify_ed25519_signatures(ix.data.as_slice(), expected_signatures, expected_message)
        },
    }
}

/// The outcome of the signature check of a release: the error of the
/// companion instruction if it has one; else `InsufficientSignatures` unless
/// the signers it proves for this escrow and these payments satisfy the
/// release rule.
pub open spec fn signature_refusal(
    escrow_account: EscrowAccount,
    signatures: Seq<Seq<u8>>,
    payment_amounts: Seq<u64>,
    recipients: Seq<Option<Address>>,
    current_time: i64,
    current_index: u16,
    previous: Option<CompanionInstruction>,
    required_signatures: u8,
) -> Option<EscrowError> {
    match companion_signers(
        current_index,
        previous,
        signatures,
        message_bytes(escrow_account.unique_id@, recipients, payment_amounts),
    ) {
        Err(e) => Some(e),
        Ok(signers) => if release_authorized(
            signers.to_set(),
            escrow_account.spec_roles(),
            required_signatures,
            escrow_account.unlock_time,
            current_time,
        ) {
            None
        } else {
            Some(EscrowError::InsufficientSignatures)
        },
    }
}

/// Checks that the release of `payment_amounts` to `recipients` is authorized
/// at `current_time`: by a quorum of the parties, or, once the timelock has
/// expired, by the seller.
pub fn verify_signatures_with_timelock(
    escrow_account: &EscrowAccount,
    signatures: &[Vec<u8>],
    payment_amounts: &[u64],
    recipients: &[Option<Address>],
    current_time: i64,
    current_index: u16,
    previous: &Option<CompanionInstruction>,
    required_signatures: u8,
) -> (r: Result<(), EscrowError>)
    ensures
        match r {
            Ok(_) => signature_refusal(
                *escrow_account,
                views(signatures@),
                payment_amounts@,
                recipients@,
                current_time,
                current_index,
                *previous,
                required_signatures,
            ) is None,
            Err(e) => signature_refusal(
                *escrow_account,
                views(signatures@),
                payment_amounts@,
                recipients@,
                current_time,
                current_index,
                *previous,
                required_signatures,
            ) == Some(e),
        },
{
    let message = construct_message(&escrow_account.unique_id, recipients, payment_amounts);
    let all_signers = match verify_ed25519_instructions(
        current_index,
        previous,
        signatures,
        message.as_slice(),
    ) {
        Ok(signers) => signers,
        Err(e) => {
            return Err(e);
        },
    };
    let roles = escrow_account.roles();
    authorize(
        all_signers.as_slice(),
        &roles,
        required_signatures,
        escrow_account.unlock_time,
        current_time,
    )
}

/// The outcome of the signature check of a release that knows no timelock:
/// the error of the companion instruction if it has one; else
/// `InsufficientSignatures` unless the signers meet the quorum.
pub open spec fn quorum_refusal(
    escrow_account: EscrowAccount,
    signatures: Seq<Seq<u8>>,
    payment_amounts: Seq<u64>,
    recipients: Seq<Option<Address>>,
    current_index: u16,
    previous: Option<CompanionInstruction>,
) -> Option<EscrowError> {
    match companion_signers(
        current_index,
        previous,
        signatures,
        message_bytes(escrow_account.unique_id@, recipients, payment_amounts),
    ) {
        Err(e) => Some(e),
        Ok(signers) => if quorum_met(
            signers.to_set(),
            escrow_account.spec_roles(),
            escrow_account.required_signatures,
        ) {
            None
        } else {
            Some(EscrowError::InsufficientSignatures)
        },
    }
}

/// Checks that a quorum of the parties has signed the release of
/// `payment_amounts` to `recipients`, whatever the time.
pub fn verify_signatures_without_timelock(
    escrow_account: &EscrowAccount,
    signatures: &[Vec<u8>],
    payment_amounts: &[u64],
    recipients: &[Option<Address>],
    current_index: u16,
    previous: &Option<CompanionInstruction>,
) -> (r: Result<(), EscrowError>)
    ensures
        match r {
            Ok(_) => quorum_refusal(
                *escrow_account,
                views(signatures@),
                payment_amounts@,
                recipients@,
                current_index,
                *previous,
            ) is None,
            Err(e) => quorum_refusal(
                *escrow_account,
                views(signatures@),
                payment_amounts@,
                recipients@,
                current_index,
                *previous,
            ) == Some(e),
        },
{
    let message = construct_message(&escrow_account.unique_id, recipients, payment_amounts);
    let all_signers = match verify_ed25519_instructions(
        current_index,
        previous,
        signatures,
        message.as_slice(),
    ) {
        Ok(signers) => signers,
        Err(e) => {
            return Err(e);
        },
    };
    let roles = escrow_account.roles();
    // No timelock: an unlock time of zero never expires.
    authorize(all_signers.as_slice(), &roles, escrow_account.required_signatures, 0, 0)
}

/// Why a release is refused, if it is: the payment checks come first, the
/// signature check second.
pub open spec fn release_refusal(
    escrow_account: EscrowAccount,
    signatures: Seq<Seq<u8>>,
    payment_amounts: Seq<u64>,
    recipients: Seq<Option<Address>>,
    current_time: i64,
    current_index: u16,
    previous: Option<CompanionInstruction>,
) -> Option<EscrowError> {
    match payment_refusal(payment_amounts, escrow_account.amount) {
        Some(e) => Some(e),
        None => signature_refusal(
            escrow_account,
            signatures,
            payment_amounts,
            recipients,
            current_time,
            current_index,
            previous,
            escrow_account.required_signatures,
        ),
    }
}

/// Decides a release: the payments must pass their checks, then the
/// signatures theirs. The caller pays only after `Ok`.
pub fn process_release(
    escrow_account: &EscrowAccount,
    signatures: &[Vec<u8>],
    payment_amounts: &[u64],
    recipients: &[Option<Address>],
    current_time: i64,
    current_index: u16,
    previous: &Option<CompanionInstruction>,
) -> (r: Result<(), EscrowError>)
    ensures
        match r {
            Ok(_) => release_refusal(
                *escrow_account,
                views(signatures@),
                payment_amounts@,
                recipients@,
                current_time,
                current_index,
                *previous,
            ) is None,
            Err(e) => release_refusal(
                *escrow_account,
                views(signatures@),
                payment_amounts@,
                recipients@,
                current_time,
                current_index,
                *previous,
            ) == Some(e),
        },
{
    match verify_payment_amounts(payment_amounts, escrow_account) {
        Ok(_) => {},
        Err(e) => {
            return Err(e);
        },
    }
    verify_signatures_with_timelock(
        escrow_account,
        signatures,
        payment_amounts,
        recipients,
        current_time,
        current_index,
        previous,
        escrow_account.required_signatures,
    )
}

/// Closes the escrow account: all its lamports go to the buyer. Returns the
/// balances of the escrow account and of the buyer after the move.
pub fn close_escrow_and_return_rent(escrow_lamports: u64, buyer_lamports: u64) -> (r: Result<
    (u64, u64),
    EscrowError,
>)
    ensures
        match r {
            Ok((escrow_after, buyer_after)) => escrow_after == 0 && buyer_after == buyer_lamports
                + escrow_lamports,
            Err(e) => e == EscrowError::AmountOverflow && buyer_lamports + escrow_lamports
                > u64::MAX,
        },
{
    match buyer_lamports.checked_add(escrow_lamports) {
        Some(sum) => Ok((0, sum)),
        None => Err(EscrowError::AmountOverflow),
    }
}

} // verus!
