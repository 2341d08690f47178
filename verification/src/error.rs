//! Error kinds of the escrow rules, each with a stable number and a message.

use vstd::prelude::*;

verus! {

/// Why an escrow operation was refused.
#[derive(Clone, Copy, Debug, PartialEq, Eq, Structural)]
pub enum EscrowError {
    /// The instruction bytes do not decode to an instruction.
    InvalidInstruction,
    /// The escrow is no longer active.
    AlreadyCompleted,
    /// Neither the quorum nor the timelock rule authorizes the release.
    InsufficientSignatures,
    /// The signer is not a party of the escrow.
    InvalidSigner,
    /// The account bytes do not decode to an escrow record.
    InvalidAccountData,
    /// A balance would exceed 64 bits.
    AmountOverflow,
    /// A token account is missing or belongs to another mint.
    InvalidTokenAccount,
    /// A deposit of zero was asked for.
    ZeroAmount,
    /// The list of payment targets is empty.
    EmptyPaymentTargets,
    /// An account constraint of the instruction does not hold.
    ValidationFailed,
    /// The payment list is empty or otherwise unusable.
    InvalidPaymentParameters,
    /// The signature packet is cut short.
    InvalidInstructionFormat,
    /// The escrow account holds fewer lamports than a transfer needs.
    InsufficientFunds,
    /// A recipient account is not the one the payment names.
    InvalidRecipient,
    /// More payment targets than the limit.
    TooManyRecipients,
    /// The payments add up to more than the escrow holds.
    PaymentAmountExceedsEscrow,
    /// A payment of zero was asked for.
    ZeroPaymentAmount,
    /// A recipient token account belongs to another mint.
    TokenMintMismatch,
    /// The signature threshold is zero or above the number of parties.
    InvalidRequiredSignatures,
    /// The companion signature-verification instruction is missing, misplaced
    /// or issued by another program.
    MalformedSignaturePacket,
    /// The number of payments does not fit the instruction.
    InvalidRecipientCount,
    /// The timelock has not expired yet.
    TimelockNotExpired,
    /// The party has already signed.
    AlreadySigned,
    /// The pool does not accept operations.
    PoolIsInactive,
    /// The pool holds less than the record asks for.
    InsufficientPoolBalance,
    /// The record is not pending.
    InvalidTransactionStatus,
    /// The payments add up to more than the record holds.
    PaymentAmountMismatch,
}

impl EscrowError {
    /// The number of this error kind.
    pub open spec fn spec_code(self) -> u32 {
        match self {
            EscrowError::InvalidInstruction => 0,
            EscrowError::AlreadyCompleted => 1,
            EscrowError::InsufficientSignatures => 2,
            EscrowError::InvalidSigner => 3,
            EscrowError::InvalidAccountData => 4,
            EscrowError::AmountOverflow => 5,
            EscrowError::InvalidTokenAccount => 6,
            EscrowError::ZeroAmount => 7,
            EscrowError::EmptyPaymentTargets => 8,
            EscrowError::ValidationFailed => 9,
            EscrowError::InvalidPaymentParameters => 10,
            EscrowError::InvalidInstructionFormat => 11,
            EscrowError::InsufficientFunds => 12,
            EscrowError::InvalidRecipient => 13,
            EscrowError::TooManyRecipients => 14,
            EscrowError::PaymentAmountExceedsEscrow => 15,
            EscrowError::ZeroPaymentAmount => 16,
            EscrowError::TokenMintMismatch => 17,
            EscrowError::InvalidRequiredSignatures => 18,
            EscrowError::MalformedSignaturePacket => 19,
            EscrowError::InvalidRecipientCount => 20,
            EscrowError::TimelockNotExpired => 21,
            EscrowError::AlreadySigned => 22,
            EscrowError::PoolIsInactive => 23,
            EscrowError::InsufficientPoolBalance => 24,
            EscrowError::InvalidTransactionStatus => 25,
            EscrowError::PaymentAmountMismatch => 26,
        }
    }

    /// The number under which this error kind is reported.
    pub fn code(&self) -> (c: u32)
        ensures
            c == self.spec_code(),
            c <= 26,
    {
        match self {
            EscrowError::InvalidInstruction => 0,
            EscrowError::AlreadyCompleted => 1,
            EscrowError::InsufficientSignatures => 2,
            EscrowError::InvalidSigner => 3,
            EscrowError::InvalidAccountData => 4,
            EscrowError::AmountOverflow => 5,
            EscrowError::InvalidTokenAccount => 6,
            EscrowError::ZeroAmount => 7,
            EscrowError::EmptyPaymentTargets => 8,
            EscrowError::ValidationFailed => 9,
            EscrowError::InvalidPaymentParameters => 10,
            EscrowError::InvalidInstructionFormat => 11,
            EscrowError::InsufficientFunds => 12,
            EscrowError::InvalidRecipient => 13,
            EscrowError::TooManyRecipients => 14,
            EscrowError::PaymentAmountExceedsEscrow => 15,
            EscrowError::ZeroPaymentAmount => 16,
            EscrowError::TokenMintMismatch => 17,
            EscrowError::InvalidRequiredSignatures => 18,
            EscrowError::MalformedSignaturePacket => 19,
            EscrowError::InvalidRecipientCount => 20,
            EscrowError::TimelockNotExpired => 21,
            EscrowError::AlreadySigned => 22,
            EscrowError::PoolIsInactive => 23,
            EscrowError::InsufficientPoolBalance => 24,
            EscrowError::InvalidTransactionStatus => 25,
            EscrowError::PaymentAmountMismatch => 26,
        }
    }

    /// The text shown for this error kind.
    pub open spec fn spec_message(self) -> Seq<char> {
        match self {
            EscrowError::InvalidInstruction => "Invalid instruction"@,
            EscrowError::AlreadyCompleted => "Escrow already completed"@,
            EscrowError::InsufficientSignatures => "Insufficient signatures"@,
            EscrowError::InvalidSigner => "Invalid signer"@,
            EscrowError::InvalidAccountData => "Invalid account data"@,
            EscrowError::AmountOverflow => "Amount overflow"@,
            EscrowError::InvalidTokenAccount => "Invalid token account"@,
            EscrowError::ZeroAmount => "Amount cannot be zero"@,
            EscrowError::EmptyPaymentTargets => "Payment targets list is empty"@,
            EscrowError::ValidationFailed => "Validation Failed"@,
            EscrowError::InvalidPaymentParameters => "Invalid Payment Parameters"@,
            EscrowError::InvalidInstructionFormat => "Invalid Instruction Format"@,
            EscrowError::InsufficientFunds => "Insufficient Funds In Escrow"@,
            EscrowError::InvalidRecipient => "Invalid Recipient Account"@,
            EscrowError::TooManyRecipients => "Too Many Recipients"@,
            EscrowError::PaymentAmountExceedsEscrow => "Total Payment Amount Exceeds Escrow Balance"@,
            EscrowError::ZeroPaymentAmount => "Payment Amount Cannot Be Zero"@,
            EscrowError::TokenMintMismatch => "Token Mint Mismatch"@,
            EscrowError::InvalidRequiredSignatures => "Invalid Required Signatures Count"@,
            EscrowError::MalformedSignaturePacket => "Ed25519 Instruction Not Found Or Invalid"@,
            EscrowError::InvalidRecipientCount => "Invalid Recipient Count"@,
            EscrowError::TimelockNotExpired => "Timelock has not expired yet"@,
            EscrowError::AlreadySigned => "Already Signed"@,
            EscrowError::PoolIsInactive => "Pool Is Inactive"@,
            EscrowError::InsufficientPoolBalance => "Insufficient Pool Balance"@,
            EscrowError::InvalidTransactionStatus => "Invalid Transaction Status"@,
            EscrowError::PaymentAmountMismatch => "Payment Amount Mismatch"@,
        }
    }

    /// The text shown for this error kind.
    pub fn message(&self) -> (text: &'static str)
        ensures
            text@ == self.spec_message(),
    {
        match self {
            EscrowError::InvalidInstruction => "Invalid instruction",
            EscrowError::AlreadyCompleted => "Escrow already completed",
            EscrowError::InsufficientSignatures => "Insufficient signatures",
            EscrowError::InvalidSigner => "Invalid signer",
            EscrowError::InvalidAccountData => "Invalid account data",
            EscrowError::AmountOverflow => "Amount overflow",
            EscrowError::InvalidTokenAccount => "Invalid token account",
            EscrowError::ZeroAmount => "Amount cannot be zero",
            EscrowError::EmptyPaymentTargets => "Payment targets list is empty",
            EscrowError::ValidationFailed => "Validation Failed",
            EscrowError::InvalidPaymentParameters => "Invalid Payment Parameters",
            EscrowError::InvalidInstructionFormat => "Invalid Instruction Format",
            EscrowError::InsufficientFunds => "Insufficient Funds In Escrow",
            EscrowError::InvalidRecipient => "Invalid Recipient Account",
            EscrowError::TooManyRecipients => "Too Many Recipients",
            EscrowError::PaymentAmountExceedsEscrow => "Total Payment Amount Exceeds Escrow Balance",
            EscrowError::ZeroPaymentAmount => "Payment Amount Cannot Be Zero",
            EscrowError::TokenMintMismatch => "Token Mint Mismatch",
            EscrowError::InvalidRequiredSignatures => "Invalid Required Signatures Count",
            EscrowError::MalformedSignaturePacket => "Ed25519 Instruction Not Found Or Invalid",
            EscrowError::InvalidRecipientCount => "Invalid Recipient Count",
            EscrowError::TimelockNotExpired => "Timelock has not expired yet",
            EscrowError::AlreadySigned => "Already Signed",
            EscrowError::PoolIsInactive => "Pool Is Inactive",
            EscrowError::InsufficientPoolBalance => "Insufficient Pool Balance",
            EscrowError::InvalidTransactionStatus => "Invalid Transaction Status",
            EscrowError::PaymentAmountMismatch => "Payment Amount Mismatch",
        }
    }
}

/// How an instruction of the program ends when it fails: one of the runtime's
/// own failure kinds, or an escrow error under its number.
#[derive(Clone, Copy, Debug, PartialEq, Eq, Structural)]
pub enum ProgramError {
    /// An escrow error, by its number.
    Custom(u32),
    /// An argument of the instruction is out of range.
    InvalidArgument,
    /// An account does not hold what the instruction expects.
    InvalidAccountData,
    /// An account that must sign the transaction did not.
    MissingRequiredSignature,
    /// The instruction was given fewer accounts than it reads.
    NotEnoughAccountKeys,
    /// An account holds fewer lamports than the instruction moves out of it.
    InsufficientFunds,
    /// An account of another program has not been initialized.
    UninitializedAccount,
    /// No address can be derived from the seeds.
    InvalidSeeds,
}

impl From<EscrowError> for ProgramError {
    fn from(e: EscrowError) -> (r: ProgramError) {
        ProgramError::Custom(e.code())
    }
}

impl vstd::std_specs::convert::FromSpecImpl<EscrowError> for ProgramError {
    open spec fn obeys_from_spec() -> bool {
        true
    }

    open spec fn from_spec(e: EscrowError) -> ProgramError {
        ProgramError::Custom(e.spec_code())
    }
}

/// The program failure that reports escrow error `e`.
pub open spec fn custom(e: EscrowError) -> ProgramError {
    ProgramError::Custom(e.spec_code())
}

/// Reports an escrow error as a program failure, under its number.
pub fn program_error(e: EscrowError) -> (r: ProgramError)
    ensures
        r == custom(e),
{
    ProgramError::from(e)
}

} // verus!
