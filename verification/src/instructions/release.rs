//! Release of an escrow whose signatures the platform checks one by one:
//! for each signature handed in, the platform says for which parties it is a
//! valid signature of the release message.

use vstd::prelude::*;
use crate::address::{lemma_address_eq, Address};
use crate::bytes::{append_address, append_byte};
use crate::error::{EscrowError, ProgramError};
use crate::instructions::deposit::{is_party, party};
use crate::instructions::release_sol::{LamportAccount, SolPayment};
use crate::instructions::release_token::{TokenAccountView, TokenPayment};
use crate::payment::{check_payments, payment_refusal};
use crate::quorum::{authorize, release_authorized, Roles};
use crate::state::{Escrow, EscrowState, TokenType};
use crate::token::{token_account_mint, unpack_token_account_mint};
use crate::utils::close_escrow_and_return_rent;

verus! {

/// What a release reads of the escrow record.
#[derive(Clone, Copy, Debug, PartialEq, Eq)]
pub struct EscrowData {
    pub buyer: Address,
    pub seller: Address,
    pub moderator: Option<Address>,
    pub unique_id: [u8; 20],
    pub token_type: TokenType,
    pub amount: u64,
    pub unlock_time: i64,
    pub required_signatures: u8,
}

/// For one signature handed in: the parties under whose key the platform
/// found it to be a valid signature of the release message.
#[derive(Clone, Copy, Debug, PartialEq, Eq)]
pub struct SignatureCheck {
    pub buyer: bool,
    pub seller: bool,
    pub moderator: bool,
}

/// A recipient's account with its bytes.
#[derive(Clone, Debug, PartialEq, Eq)]
pub struct RecipientAccount {
    pub key: Address,
    pub lamports: u64,
    pub data: Vec<u8>,
}

/// The accounts of the release, and what the ledger tells it.
#[derive(Clone, Debug, PartialEq, Eq)]
pub struct Release {
    pub initiator: Address,
    pub escrow_account: Escrow,
    /// All the lamports of the escrow account.
    pub escrow_lamports: u64,
    /// The lamports that keep the escrow account alive.
    pub minimum_rent: u64,
    /// The ledger's clock.
    pub unix_timestamp: i64,
    /// The escrow's token account, for an escrow of tokens.
    pub escrow_token_account: Option<TokenAccountView>,
    pub buyer: LamportAccount,
    pub recipient1: RecipientAccount,
    pub recipient2: Option<RecipientAccount>,
    pub recipient3: Option<RecipientAccount>,
    pub recipient4: Option<RecipientAccount>,
}

/// What the release pays.
#[derive(Clone, Debug, PartialEq, Eq)]
pub enum Payout {
    /// Credits of the native coin, debited from the escrow account.
    Sol(Vec<SolPayment>),
    /// Transfers of tokens, after which the escrow's token account is closed
    /// in favour of the buyer.
    Spl(Vec<TokenPayment>),
}

/// What a release does.
#[derive(Clone, Debug, PartialEq, Eq)]
pub struct Released {
    /// The record after the release; it is stored before anything is paid.
    pub escrow_account: Escrow,
    pub payout: Payout,
    /// What the escrow account holds after the payments; it goes to the buyer.
    pub refund: u64,
    /// The buyer's balance after the refund.
    pub buyer_lamports: u64,
}

/// Copies what a release reads out of the record.
pub fn extract_escrow_data(escrow: &Escrow) -> (data: EscrowData)
    ensures
        data == (EscrowData {
            buyer: escrow.buyer,
            seller: escrow.seller,
            moderator: escrow.moderator,
            unique_id: escrow.unique_id,
            token_type: escrow.token_type,
            amount: escrow.amount,
            unlock_time: escrow.unlock_time,
            required_signatures: escrow.required_signatures,
        }),
{
    EscrowData {
        buyer: escrow.buyer,
        seller: escrow.seller,
        moderator: escrow.moderator,
        unique_id: escrow.unique_id,
        token_type: escrow.token_type,
        amount: escrow.amount,
        unlock_time: escrow.unlock_time,
        required_signatures: escrow.required_signatures,
    }
}

/// What the escrow can pay: for the native coin, the lamports of the escrow
/// account beyond its rent; for tokens, the balance of its token account.
pub open spec fn available_balance(
    token_type: TokenType,
    escrow_lamports: u64,
    minimum_rent: u64,
    escrow_token_account: Option<TokenAccountView>,
) -> Result<u64, EscrowError> {
    match token_type {
        TokenType::Sol => Ok(
            if escrow_lamports >= minimum_rent {
                (escrow_lamports - minimum_rent) as u64
            } else {
                0
            },
        ),
        TokenType::Spl(_) => match escrow_token_account {
            Some(account) => Ok(account.amount),
            None => Err(EscrowError::InvalidTokenAccount),
        },
    }
}

/// Finds what the escrow can pay.
pub fn verify_balance(
    token_type: &TokenType,
    escrow_lamports: u64,
    minimum_rent: u64,
    escrow_token_account: &Option<TokenAccountView>,
) -> (r: Result<u64, EscrowError>)
    ensures
        r == available_balance(*token_type, escrow_lamports, minimum_rent, *escrow_token_account),
{
    match token_type {
        TokenType::Sol => Ok(escrow_lamports.saturating_sub(minimum_rent)),
        TokenType::Spl(_) => match escrow_token_account {
            Some(account) => Ok(account.amount),
            None => Err(EscrowError::InvalidTokenAccount),
        },
    }
}

/// The parties for whom one of the first `n` signatures is valid, in the
/// order of the signatures; a moderator counts only where there is one.
pub open spec fn checked_signers(escrow: EscrowData, checks: Seq<SignatureCheck>, n: int) -> Seq<
    Address,
>
    decreases n,
{
    if n <= 0 {
        Seq::<Address>::empty()
    } else {
        let c = checks[n - 1];
        checked_signers(escrow, checks, n - 1) + (if c.buyer {
            seq![escrow.buyer]
        } else {
            Seq::<Address>::empty()
        }) + (if c.seller {
            seq![escrow.seller]
        } else {
            Seq::<Address>::empty()
        }) + (match escrow.moderator {
            Some(m) => if c.moderator {
                seq![m]
            } else {
                Seq::<Address>::empty()
            },
            None => Seq::<Address>::empty(),
        })
    }
}

/// Why the signatures do not authorize the release, if they do not: there
/// must be a recipient for each payment (`InvalidPaymentParameters`), and the
/// parties for whom a signature is valid must satisfy the release rule
/// (`InsufficientSignatures`).
pub open spec fn signatures_refusal(
    escrow: EscrowData,
    checks: Seq<SignatureCheck>,
    payments: int,
    recipients: int,
    current_time: i64,
) -> Option<EscrowError> {
    if recipients < payments {
        Some(EscrowError::InvalidPaymentParameters)
    } else if !release_authorized(
        checked_signers(escrow, checks, checks.len() as int).to_set(),
        Roles { buyer: escrow.buyer, seller: escrow.seller, moderator: escrow.moderator },
        escrow.required_signatures,
        escrow.unlock_time,
        current_time,
    ) {
        Some(EscrowError::InsufficientSignatures)
    } else {
        None
    }
}

/// Decides from the platform's signature checks whether the release is authorized.
pub fn verify_signatures(
    escrow: &EscrowData,
    checks: &[SignatureCheck],
    payments: usize,
    recipients: usize,
    current_time: i64,
) -> (r: Result<(), EscrowError>)
    ensures
        match r {
            Ok(_) => signatures_refusal(
                *escrow,
                checks@,
                payments as int,
                recipients as int,
                current_time,
            ) is None,
            Err(e) => signatures_refusal(
                *escrow,
                checks@,
                payments as int,
                recipients as int,
                current_time,
            ) == Some(e),
        },
{
    if recipients < payments {
        return Err(EscrowError::InvalidPaymentParameters);
    }
    let mut signers: Vec<Address> = Vec::new();
    let mut i: usize = 0;
    while i < checks.len()
        invariant
            i <= checks.len(),
            signers@ == checked_signers(*escrow, checks@, i as int),
        decreases checks.len() - i,
    {
        let ghost before = signers@;
        if checks[i].buyer {
            signers.push(escrow.buyer);
        }
        if checks[i].seller {
            signers.push(escrow.seller);
        }
        match escrow.moderator {
            Some(m) => {
                if checks[i].moderator {
                    signers.push(m);
                }
            },
            None => {},
        }
        assert(signers@ =~= checked_signers(*escrow, checks@, i + 1));
        i += 1;
    }
    let roles = Roles { buyer: escrow.buyer, seller: escrow.seller, moderator: escrow.moderator };
    authorize(
        signers.as_slice(),
        &roles,
        escrow.required_signatures,
        escrow.unlock_time,
        current_time,
    )
}

/// The data of an instruction that asks the platform to check one signature:
/// a zero byte, the 64 bytes of the signature, the count one, the signer's 32
/// bytes, the length of the message in two little-endian bytes, and the message.
pub open spec fn check_request(signer: Address, message: Seq<u8>, signature: Seq<u8>) -> Seq<u8> {
    seq![0u8] + signature + seq![1u8] + signer@ + seq![
        (message.len() % 256) as u8,
        (message.len() / 256) as u8,
    ] + message
}

/// Builds the data of an instruction that asks the platform to check
/// `signature` of `message` under the key of `signer`; `None` if the signature
/// has not 64 bytes or the message's length does not fit in two bytes.
pub fn verify_signature(signer: &Address, message: &[u8], signature: &[u8]) -> (r: Option<Vec<u8>>)
    ensures
        match r {
            Some(data) => signature@.len() == 64 && message@.len() < 65536 && data@
                == check_request(*signer, message@, signature@),
            None => signature@.len() != 64 || message@.len() >= 65536,
        },
{
    if signature.len() != 64 || message.len() >= 65536 {
        return None;
    }
    let mut data: Vec<u8> = Vec::new();
    data.push(0);
    assert(data@ =~= seq![0u8]);
    data.extend_from_slice(signature);
    append_byte(&mut data, 1);
    append_address(&mut data, signer);
    let ghost head = data@;
    data.push((message.len() % 256) as u8);
    data.push((message.len() / 256) as u8);
    assert(data@ =~= head + seq![(message@.len() % 256) as u8, (message@.len() / 256) as u8]);
    data.extend_from_slice(message);
    Some(data)
}

/// The recipients that were given, in order: the first, then those of the
/// second to fourth that are there.
pub open spec fn given_recipients(
    recipient1: RecipientAccount,
    recipient2: Option<RecipientAccount>,
    recipient3: Option<RecipientAccount>,
    recipient4: Option<RecipientAccount>,
) -> Seq<RecipientAccount> {
    seq![recipient1] + (match recipient2 {
        Some(r) => seq![r],
        None => Seq::<RecipientAccount>::empty(),
    }) + (match recipient3 {
        Some(r) => seq![r],
        None => Seq::<RecipientAccount>::empty(),
    }) + (match recipient4 {
        Some(r) => seq![r],
        None => Seq::<RecipientAccount>::empty(),
    })
}

/// Gathers the recipients that were given.
pub fn collect_recipient_accounts<'a>(ctx: &'a Release) -> (accounts: Vec<&'a RecipientAccount>)
    ensures
        accounts@.map_values(|r: &RecipientAccount| *r) == given_recipients(
            ctx.recipient1,
            ctx.recipient2,
            ctx.recipient3,
            ctx.recipient4,
        ),
{
    let mut accounts: Vec<&RecipientAccount> = Vec::new();
    accounts.push(&ctx.recipient1);
    match &ctx.recipient2 {
        Some(r) => {
            accounts.push(r);
        },
        None => {},
    }
    match &ctx.recipient3 {
        Some(r) => {
            accounts.push(r);
        },
        None => {},
    }
    match &ctx.recipient4 {
        Some(r) => {
            accounts.push(r);
        },
        None => {},
    }
    assert(accounts@.map_values(|r: &RecipientAccount| *r) =~= given_recipients(
        ctx.recipient1,
        ctx.recipient2,
        ctx.recipient3,
        ctx.recipient4,
    ));
    accounts
}

/// The credits for the first `n` amounts, and what is left in the escrow
/// account: `amounts[i]` goes to `recipients[i]`. `InvalidPaymentParameters`
/// if a payment has no recipient, `InsufficientFunds` if the escrow account
/// cannot cover one, `AmountOverflow` if a recipient's balance would exceed 64 bits.
pub open spec fn sol_credits(
    escrow_lamports: u64,
    recipients: Seq<RecipientAccount>,
    amounts: Seq<u64>,
    n: int,
) -> Result<(Seq<SolPayment>, int), EscrowError>
    decreases n,
{
    if n <= 0 {
        Ok((Seq::<SolPayment>::empty(), escrow_lamports as int))
    } else {
        match sol_credits(escrow_lamports, recipients, amounts, n - 1) {
            Err(e) => Err(e),
            Ok((paid, left)) => if n - 1 >= recipients.len() {
                Err(EscrowError::InvalidPaymentParameters)
            } else if left < amounts[n - 1] {
                Err(EscrowError::InsufficientFunds)
            } else if recipients[n - 1].lamports + amounts[n - 1] > u64::MAX {
                Err(EscrowError::AmountOverflow)
            } else {
                Ok(
                    (
                        paid.push(
                            SolPayment {
                                recipient: recipients[n - 1].key,
                                lamports: amounts[n - 1],
                                create_account: false,
                            },
                        ),
                        left - amounts[n - 1],
                    ),
                )
            },
        }
    }
}

/// Once a credit has failed, the payout has.
pub proof fn lemma_credit_failed_stays(
    escrow_lamports: u64,
    recipients: Seq<RecipientAccount>,
    amounts: Seq<u64>,
    k: int,
    n: int,
)
    requires
        0 <= k <= n,
        sol_credits(escrow_lamports, recipients, amounts, k) is Err,
    ensures
        sol_credits(escrow_lamports, recipients, amounts, n) == sol_credits(
            escrow_lamports,
            recipients,
            amounts,
            k,
        ),
    decreases n - k,
{
    if k < n {
        lemma_credit_failed_stays(escrow_lamports, recipients, amounts, k, n - 1);
    }
}

/// Plans the credits of a release of the native coin.
pub fn process_sol_payments(
    payment_amounts: &[u64],
    escrow_lamports: u64,
    recipients: &Vec<&RecipientAccount>,
) -> (r: Result<(Vec<SolPayment>, u64), EscrowError>)
    ensures
        match r {
            Ok((payments, left)) => sol_credits(
                escrow_lamports,
                recipients@.map_values(|r: &RecipientAccount| *r),
                payment_amounts@,
                payment_amounts.len() as int,
            ) == Ok::<(Seq<SolPayment>, int), EscrowError>((payments@, left as int)),
            Err(e) => sol_credits(
                escrow_lamports,
                recipients@.map_values(|r: &RecipientAccount| *r),
                payment_amounts@,
                payment_amounts.len() as int,
            ) == Err::<(Seq<SolPayment>, int), EscrowError>(e),
        },
{
    let ghost accounts = recipients@.map_values(|r: &RecipientAccount| *r);
    let mut payments: Vec<SolPayment> = Vec::new();
    let mut left: u64 = escrow_lamports;
    let mut i: usize = 0;
    while i < payment_amounts.len()
        invariant
            i <= payment_amounts.len(),
            accounts == recipients@.map_values(|r: &RecipientAccount| *r),
            sol_credits(escrow_lamports, accounts, payment_amounts@, i as int) == Ok::<
                (Seq<SolPayment>, int),
                EscrowError,
            >((payments@, left as int)),
        decreases payment_amounts.len() - i,
    {
        let amount: u64 = payment_amounts[i];
        if i >= recipients.len() {
            proof {
                lemma_credit_failed_stays(
                    escrow_lamports,
                    accounts,
                    payment_amounts@,
                    i + 1,
                    payment_amounts.len() as int,
                );
            }
            return Err(EscrowError::InvalidPaymentParameters);
        }
        let recipient = recipients[i];
        assert(accounts[i as int] == *recipient);
        if left < amount {
            proof {
                lemma_credit_failed_stays(
                    escrow_lamports,
                    accounts,
                    payment_amounts@,
                    i + 1,
                    payment_amounts.len() as int,
                );
            }
            return Err(EscrowError::InsufficientFunds);
        }
        if recipient.lamports > u64::MAX - amount {
            proof {
                lemma_credit_failed_stays(
                    escrow_lamports,
                    accounts,
                    payment_amounts@,
                    i + 1,
                    payment_amounts.len() as int,
                );
            }
            return Err(EscrowError::AmountOverflow);
        }
        payments.push(SolPayment { recipient: recipient.key, lamports: amount, create_account: false });
        left = left - amount;
        i += 1;
    }
    Ok((payments, left))
}

/// The transfers for the first `n` amounts: `amounts[i]` goes to
/// `recipients[i]`, whose bytes must be those of a token account of `mint`.
/// `InvalidPaymentParameters` if a payment has no recipient,
/// `InvalidTokenAccount` if a recipient is no token account of the mint.
pub open spec fn spl_transfers(
    mint: Address,
    recipients: Seq<RecipientAccount>,
    amounts: Seq<u64>,
    n: int,
) -> Result<Seq<TokenPayment>, EscrowError>
    decreases n,
{
    if n <= 0 {
        Ok(Seq::<TokenPayment>::empty())
    } else {
        match spl_transfers(mint, recipients, amounts, n - 1) {
            Err(e) => Err(e),
            Ok(paid) => if n - 1 >= recipients.len() {
                Err(EscrowError::InvalidPaymentParameters)
            } else if token_account_mint(recipients[n - 1].data@) != Ok::<Seq<u8>, ProgramError>(
                mint@,
            ) {
                Err(EscrowError::InvalidTokenAccount)
            } else {
                Ok(
                    paid.push(
                        TokenPayment { destination: recipients[n - 1].key, amount: amounts[n - 1] },
                    ),
                )
            },
        }
    }
}

/// Once a transfer has failed, the payout has.
pub proof fn lemma_transfer_failed_stays(
    mint: Address,
    recipients: Seq<RecipientAccount>,
    amounts: Seq<u64>,
    k: int,
    n: int,
)
    requires
        0 <= k <= n,
        spl_transfers(mint, recipients, amounts, k) is Err,
    ensures
        spl_transfers(mint, recipients, amounts, n) == spl_transfers(mint, recipients, amounts, k),
    decreases n - k,
{
    if k < n {
        lemma_transfer_failed_stays(mint, recipients, amounts, k, n - 1);
    }
}

/// Plans the transfers of a release of tokens.
pub fn process_spl_payments(
    payment_amounts: &[u64],
    recipients: &Vec<&RecipientAccount>,
    mint: &Address,
) -> (r: Result<Vec<TokenPayment>, EscrowError>)
    ensures
        match r {
            Ok(transfers) => spl_transfers(
                *mint,
                recipients@.map_values(|r: &RecipientAccount| *r),
                payment_amounts@,
                payment_amounts.len() as int,
            ) == Ok::<Seq<TokenPayment>, EscrowError>(transfers@),
            Err(e) => spl_transfers(
                *mint,
                recipients@.map_values(|r: &RecipientAccount| *r),
                payment_amounts@,
                payment_amounts.len() as int,
            ) == Err::<Seq<TokenPayment>, EscrowError>(e),
        },
{
    let ghost accounts = recipients@.map_values(|r: &RecipientAccount| *r);
    let mut transfers: Vec<TokenPayment> = Vec::new();
    let mut i: usize = 0;
    while i < payment_amounts.len()
        invariant
            i <= payment_amounts.len(),
            accounts == recipients@.map_values(|r: &RecipientAccount| *r),
            spl_transfers(*mint, accounts, payment_amounts@, i as int) == Ok::<
                Seq<TokenPayment>,
                EscrowError,
            >(transfers@),
        decreases payment_amounts.len() - i,
    {
        if i >= recipients.len() {
            proof {
                lemma_transfer_failed_stays(
                    *mint,
                    accounts,
                    payment_amounts@,
                    i + 1,
                    payment_amounts.len() as int,
                );
            }
            return Err(EscrowError::InvalidPaymentParameters);
        }
        let recipient = recipients[i];
        assert(accounts[i as int] == *recipient);
        let fits = match unpack_token_account_mint(recipient.data.as_slice()) {
            Ok(found) => {
                proof {
                    lemma_address_eq(found, *mint);
                }
                found == *mint
            },
            Err(_) => false,
        };
        if !fits {
            proof {
                lemma_transfer_failed_stays(
                    *mint,
                    accounts,
                    payment_amounts@,
                    i + 1,
                    payment_amounts.len() as int,
                );
            }
            return Err(EscrowError::InvalidTokenAccount);
        }
        transfers.push(TokenPayment { destination: recipient.key, amount: payment_amounts[i] });
        i += 1;
    }
    Ok(transfers)
}

/// What a release pays, with its list as a sequence.
pub enum PayoutView {
    Sol(Seq<SolPayment>),
    Spl(Seq<TokenPayment>),
}

impl View for Payout {
    type V = PayoutView;

    open spec fn view(&self) -> PayoutView {
        match self {
            Payout::Sol(payments) => PayoutView::Sol(payments@),
            Payout::Spl(transfers) => PayoutView::Spl(transfers@),
        }
    }
}

/// Why the accounts of a release are refused, if they are: the initiator
/// must be a party (`InvalidSigner`), the account must hold a record
/// (`InvalidAccountData`) of an active escrow (`AlreadyCompleted`), and the
/// buyer's account must be the buyer's (`ValidationFailed`).
pub open spec fn accounts_refusal(ctx: Release) -> Option<EscrowError> {
    let escrow = ctx.escrow_account;
    if !is_party(escrow, ctx.initiator) {
        Some(EscrowError::InvalidSigner)
    } else if !escrow.is_initialized {
        Some(EscrowError::InvalidAccountData)
    } else if escrow.state != EscrowState::Active {
        Some(EscrowError::AlreadyCompleted)
    } else if ctx.buyer.key != escrow.buyer {
        Some(EscrowError::ValidationFailed)
    } else {
        None
    }
}

/// The payout of a release and what goes to the buyer: for the native coin
/// the credits and what they leave in the escrow account; for tokens the
/// transfers and all the lamports of the escrow account.
pub open spec fn payout_of(ctx: Release, payment_amounts: Seq<u64>) -> Result<
    (PayoutView, int),
    EscrowError,
> {
    let recipients = given_recipients(
        ctx.recipient1,
        ctx.recipient2,
        ctx.recipient3,
        ctx.recipient4,
    );
    match ctx.escrow_account.token_type {
        TokenType::Sol => match sol_credits(
            ctx.escrow_lamports,
            recipients,
            payment_amounts,
            payment_amounts.len() as int,
        ) {
            Err(e) => Err(e),
            Ok((payments, left)) => Ok((PayoutView::Sol(payments), left)),
        },
        TokenType::Spl(mint) => match spl_transfers(
            mint,
            recipients,
            payment_amounts,
            payment_amounts.len() as int,
        ) {
            Err(e) => Err(e),
            Ok(transfers) => Ok((PayoutView::Spl(transfers), ctx.escrow_lamports as int)),
        },
    }
}

/// What a release does, or why it is refused: the accounts must be the
/// escrow's; the escrow must hold what its record says (`InsufficientFunds`);
/// the payments and then the signatures must pass their checks; the payout
/// must be payable; and the buyer's balance must take the refund.
pub open spec fn release_outcome(
    ctx: Release,
    payment_amounts: Seq<u64>,
    checks: Seq<SignatureCheck>,
) -> Result<(PayoutView, int), EscrowError> {
    let escrow = ctx.escrow_account;
    match accounts_refusal(ctx) {
        Some(e) => Err(e),
        None => match available_balance(
            escrow.token_type,
            ctx.escrow_lamports,
            ctx.minimum_rent,
            ctx.escrow_token_account,
        ) {
            Err(e) => Err(e),
            Ok(balance) => if balance < escrow.amount {
                Err(EscrowError::InsufficientFunds)
            } else {
                match payment_refusal(payment_amounts, escrow.amount) {
                    Some(e) => Err(e),
                    None => match signatures_refusal(
                        EscrowData {
                            buyer: escrow.buyer,
                            seller: escrow.seller,
                            moderator: escrow.moderator,
                            unique_id: escrow.unique_id,
                            token_type: escrow.token_type,
                            amount: escrow.amount,
                            unlock_time: escrow.unlock_time,
                            required_signatures: escrow.required_signatures,
                        },
                        checks,
                        payment_amounts.len() as int,
                        given_recipients(
                            ctx.recipient1,
                            ctx.recipient2,
                            ctx.recipient3,
                            ctx.recipient4,
                        ).len() as int,
                        ctx.unix_timestamp,
                    ) {
                        Some(e) => Err(e),
                        None => match payout_of(ctx, payment_amounts) {
                            Err(e) => Err(e),
                            Ok((payout, refund)) => if ctx.buyer.lamports + refund > u64::MAX {
                                Err(EscrowError::AmountOverflow)
                            } else {
                                Ok((payout, refund))
                            },
                        },
                    },
                }
            },
        }
    }
}

/// Releases an escrow: checks the accounts, the balance, the payments and
/// the signatures, empties and completes the record, plans the payout, and
/// closes the escrow account in favour of the buyer.
pub fn handler(ctx: &Release, payment_amounts: &[u64], checks: &[SignatureCheck]) -> (r: Result<
    Released,
    EscrowError,
>)
    ensures
        match r {
            Ok(released) => {
                &&& release_outcome(*ctx, payment_amounts@, checks@) == Ok::<
                    (PayoutView, int),
                    EscrowError,
                >((released.payout@, released.refund as int))
                &&& released.buyer_lamports == ctx.buyer.lamports + released.refund
                &&& released.escrow_account == (Escrow {
                    state: EscrowState::Completed,
                    amount: 0,
                    ..ctx.escrow_account
                })
            },
            Err(e) => release_outcome(*ctx, payment_amounts@, checks@) == Err::<
                (PayoutView, int),
                EscrowError,
            >(e),
        },
{
    let escrow = &ctx.escrow_account;
    if !party(escrow, &ctx.initiator) {
        return Err(EscrowError::InvalidSigner);
    }
    if !escrow.is_initialized {
        return Err(EscrowError::InvalidAccountData);
    }
    if !matches!(escrow.state, EscrowState::Active) {
        return Err(EscrowError::AlreadyCompleted);
    }
    if ctx.buyer.key != escrow.buyer {
        return Err(EscrowError::ValidationFailed);
    }
    let escrow_data = extract_escrow_data(escrow);
    let actual_balance = match verify_balance(
        &escrow_data.token_type,
        ctx.escrow_lamports,
        ctx.minimum_rent,
        &ctx.escrow_token_account,
    ) {
        Ok(balance) => balance,
        Err(e) => {
            return Err(e);
        },
    };
    if actual_balance < escrow_data.amount {
        return Err(EscrowError::InsufficientFunds);
    }
    match check_payments(payment_amounts, escrow_data.amount) {
        Ok(_) => {},
        Err(e) => {
            return Err(e);
        },
    }
    let recipients = collect_recipient_accounts(ctx);
    match verify_signatures(
        &escrow_data,
        checks,
        payment_amounts.len(),
        recipients.len(),
        ctx.unix_timestamp,
    ) {
        Ok(_) => {},
        Err(e) => {
            return Err(e);
        },
    }
    let done = Escrow { state: EscrowState::Completed, amount: 0, ..*escrow };
    let (payout, refund) = match escrow_data.token_type {
        TokenType::Sol => {
            match process_sol_payments(payment_amounts, ctx.escrow_lamports, &recipients) {
                Ok((payments, left)) => (Payout::Sol(payments), left),
                Err(e) => {
                    return Err(e);
                },
            }
        },
        TokenType::Spl(mint) => {
            match process_spl_payments(payment_amounts, &recipients, &mint) {
                Ok(transfers) => (Payout::Spl(transfers), ctx.escrow_lamports),
                Err(e) => {
                    return Err(e);
                },
            }
        },
    };
    let (_, buyer_lamports) = match close_escrow_and_return_rent(refund, ctx.buyer.lamports) {
        Ok(balances) => balances,
        Err(e) => {
            return Err(e);
        },
    };
    Ok(Released { escrow_account: done, payout, refund, buyer_lamports })
}

} // verus!
