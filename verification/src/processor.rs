//! The escrow program whose parties sign on chain. Each instruction is a
//! function from the accounts it was given to the actions the runtime is to
//! perform, or to the error that aborts the transaction.

use vstd::prelude::*;
use vstd::slice::slice_to_vec;
use crate::address::{
    lemma_address_eq, program_address, try_find_program_address, Address, CLOCK_SYSVAR_ID,
    RENT_SYSVAR_ID, SYSTEM_PROGRAM_ID, TOKEN_PROGRAM_ID,
};
use crate::bytes::{holds_at, views};
use crate::error::{custom, program_error, EscrowError, ProgramError};
use crate::instruction::{lemma_bytes_unique, EscrowInstruction, InstructionView};
use crate::payment::{has_zero, total, total_within};
use crate::quorum::{authorize, release_authorized};
use crate::state::{
    threshold_valid, Escrow, EscrowState, PaymentTarget, TokenType, ESCROW_SEED_PREFIX,
    MAX_PAYMENT_TARGETS, MAX_REQUIRED_SIGNATURES,
};
use crate::token::{token_account_mint, unpack_token_account_mint};

verus! {

/// What an instruction reads of one account it was given.
#[derive(Clone, Debug, PartialEq, Eq)]
pub struct AccountView {
    pub key: Address,
    pub is_signer: bool,
    pub lamports: u64,
    pub data: Vec<u8>,
}

/// What the ledger tells an instruction besides its accounts.
#[derive(Clone, Copy, Debug, PartialEq, Eq)]
pub struct Environment {
    /// The ledger's clock, in seconds.
    pub unix_timestamp: i64,
    /// The lamports that keep an account of the escrow record's size alive.
    pub rent_exempt_minimum: u64,
}

/// One thing the runtime is to do for an instruction that succeeded. The
/// actions of an instruction are performed in order, all or none.
#[derive(Clone, Copy, Debug, PartialEq, Eq)]
pub enum Action {
    /// Write the record into the escrow account.
    Store { account: Address, escrow: Escrow },
    /// Create the escrow account at its derived address, paid for by `payer`.
    CreateAccount { payer: Address, account: Address, lamports: u64, space: u64, bump_seed: u8 },
    /// Make `account` a token account of `mint` that the escrow account owns.
    InitializeTokenAccount {
        token_program: Address,
        account: Address,
        mint: Address,
        owner: Address,
        rent: Address,
        bump_seed: u8,
    },
    /// Have the system program move lamports out of an account that signed.
    Transfer { from: Address, to: Address, lamports: u64 },
    /// Have the token program move tokens. `authority_bump` is set where the
    /// escrow account is the authority and signs by its seeds.
    TokenTransfer {
        token_program: Address,
        source: Address,
        destination: Address,
        authority: Address,
        amount: u64,
        authority_bump: Option<u8>,
    },
    /// Have the token program close the escrow's token account and send its rent to `destination`.
    CloseTokenAccount {
        token_program: Address,
        account: Address,
        destination: Address,
        authority: Address,
        bump_seed: u8,
    },
    /// Debit the escrow account and credit `to` directly.
    MoveLamports { from: Address, to: Address, lamports: u64 },
}

/// The record that stands at the front of `data`, if one does.
pub open spec fn record_in(data: Seq<u8>) -> Option<Escrow> {
    if exists|e: Escrow| holds_at(data, 0, e.spec_pack()) {
        Some(choose|e: Escrow| holds_at(data, 0, e.spec_pack()))
    } else {
        None
    }
}

/// Reads the record of an escrow account.
pub fn load_escrow(data: &[u8]) -> (r: Result<Escrow, ProgramError>)
    ensures
        match r {
            Ok(e) => record_in(data@) == Some(e),
            Err(err) => err == ProgramError::InvalidAccountData && record_in(data@) is None,
        },
{
    let r = Escrow::unpack_from_slice(data);
    proof {
        if let Ok(e) = r {
            let chosen = choose|e: Escrow| holds_at(data@, 0, e.spec_pack());
            Escrow::lemma_unpack_unique(data@, e, chosen);
        }
    }
    r
}

/// The record after `signer` has signed: the flag of the first of buyer,
/// seller and moderator that `signer` is gets set. `None` if `signer` is no party.
pub open spec fn signed_by(escrow: Escrow, signer: Address) -> Option<Escrow> {
    if signer == escrow.buyer {
        Some(Escrow { buyer_signed: true, ..escrow })
    } else if signer == escrow.seller {
        Some(Escrow { seller_signed: true, ..escrow })
    } else if escrow.moderator == Some(signer) {
        Some(Escrow { moderator_signed: true, ..escrow })
    } else {
        None
    }
}

/// What `Sign` does: the signer must have signed the transaction, the escrow
/// must be active, and the signer must be one of its parties.
pub open spec fn sign_outcome(accounts: Seq<AccountView>) -> Result<Seq<Action>, ProgramError> {
    if accounts.len() < 2 {
        Err(ProgramError::NotEnoughAccountKeys)
    } else if !accounts[0].is_signer {
        Err(ProgramError::MissingRequiredSignature)
    } else {
        match record_in(accounts[1].data@) {
            None => Err(ProgramError::InvalidAccountData),
            Some(escrow) => if escrow.state != EscrowState::Active {
                Err(custom(EscrowError::AlreadyCompleted))
            } else {
                match signed_by(escrow, accounts[0].key) {
                    None => Err(custom(EscrowError::InvalidSigner)),
                    Some(next) => Ok(seq![Action::Store { account: accounts[1].key, escrow: next }]),
                }
            },
        }
    }
}

/// The record after a deposit of `amount`, or why the deposit is refused:
/// the escrow must be active, the amount positive, and the new balance must
/// fit in 64 bits.
pub open spec fn deposited(escrow: Escrow, amount: u64) -> Result<Escrow, ProgramError> {
    if escrow.state != EscrowState::Active {
        Err(custom(EscrowError::AlreadyCompleted))
    } else if amount == 0 {
        Err(ProgramError::InvalidArgument)
    } else if escrow.amount + amount > u64::MAX {
        Err(custom(EscrowError::AmountOverflow))
    } else {
        Ok(Escrow { amount: (escrow.amount + amount) as u64, ..escrow })
    }
}

/// The transfer that funds a deposit, or why none is made. The native coin
/// goes through the system program from the depositor to the escrow account.
/// Tokens go through the token program from a source account of the escrow's
/// mint to the destination account, on the depositor's authority.
pub open spec fn deposit_transfer(accounts: Seq<AccountView>, escrow: Escrow, amount: u64) -> Result<
    Action,
    ProgramError,
> {
    match escrow.token_type {
        TokenType::Sol => if accounts.len() < 3 {
            Err(ProgramError::NotEnoughAccountKeys)
        } else if accounts[2].key@ != SYSTEM_PROGRAM_ID@ {
            Err(ProgramError::InvalidAccountData)
        } else {
            Ok(Action::Transfer { from: accounts[0].key, to: accounts[1].key, lamports: amount })
        },
        TokenType::Spl(mint) => if accounts.len() < 5 {
            Err(ProgramError::NotEnoughAccountKeys)
        } else if accounts[2].key@ != TOKEN_PROGRAM_ID@ {
            Err(ProgramError::InvalidAccountData)
        } else {
            match token_account_mint(accounts[3].data@) {
                Err(e) => Err(e),
                Ok(source_mint) => if source_mint != mint@ {
                    Err(ProgramError::InvalidAccountData)
                } else {
                    Ok(
                        Action::TokenTransfer {
                            token_program: accounts[2].key,
                            source: accounts[3].key,
                            destination: accounts[4].key,
                            authority: accounts[0].key,
                            amount,
                            authority_bump: None,
                        },
                    )
                },
            }
        },
    }
}

/// What `Deposit` does: the depositor must have signed, the escrow account
/// must hold a record, the deposit must be accepted and its transfer well
/// addressed. Then the transfer is made and the new balance stored.
pub open spec fn deposit_outcome(accounts: Seq<AccountView>, amount: u64) -> Result<
    Seq<Action>,
    ProgramError,
> {
    if accounts.len() < 2 {
        Err(ProgramError::NotEnoughAccountKeys)
    } else if !accounts[0].is_signer {
        Err(ProgramError::MissingRequiredSignature)
    } else {
        match record_in(accounts[1].data@) {
            None => Err(ProgramError::InvalidAccountData),
            Some(escrow) => if escrow.state != EscrowState::Active {
                Err(custom(EscrowError::AlreadyCompleted))
            } else if amount == 0 {
                Err(ProgramError::InvalidArgument)
            } else {
                match deposit_transfer(accounts, escrow, amount) {
                    Err(e) => Err(e),
                    Ok(transfer) => match deposited(escrow, amount) {
                        Err(e) => Err(e),
                        Ok(next) => Ok(
                            seq![transfer, Action::Store { account: accounts[1].key, escrow: next }],
                        ),
                    },
                }
            },
        }
    }
}

/// The amounts of a list of payments.
pub open spec fn target_amounts(targets: Seq<PaymentTarget>) -> Seq<u64> {
    targets.map_values(|t: PaymentTarget| t.amount)
}

/// Why the payments of a release are refused against a balance of `limit`,
/// if they are: none at all, one of zero, or a total above the balance.
pub open spec fn targets_refusal(targets: Seq<PaymentTarget>, limit: u64) -> Option<ProgramError> {
    if targets.len() == 0 {
        Some(custom(EscrowError::EmptyPaymentTargets))
    } else if exists|i: int| 0 <= i < targets.len() && target_amounts(targets)[i] == 0 {
        Some(custom(EscrowError::ZeroAmount))
    } else if total(target_amounts(targets)) > limit {
        Some(custom(EscrowError::PaymentAmountExceedsEscrow))
    } else {
        None
    }
}

/// The record of a released escrow: completed, with nothing left in it.
pub open spec fn completed(escrow: Escrow) -> Escrow {
    Escrow { state: EscrowState::Completed, amount: 0, ..escrow }
}

/// The seeds from which the program derives an escrow account's address: the
/// prefix, the buyer, the seller, the moderator (nothing where there is
/// none), and the identifier.
pub open spec fn escrow_seeds(
    buyer: Address,
    seller: Address,
    moderator: Option<Address>,
    unique_id: Seq<u8>,
) -> Seq<Seq<u8>> {
    seq![
        ESCROW_SEED_PREFIX@,
        buyer@,
        seller@,
        match moderator {
            Some(m) => m@,
            None => Seq::<u8>::empty(),
        },
        unique_id,
    ]
}

/// How a release of the native coin pays. After the three fixed accounts come
/// one account for each payment, which must be the payment's recipient, and
/// the buyer's account. The escrow account must hold the total. The record is
/// stored first; then each recipient is credited, and the buyer with whatever
/// the escrow account holds beyond the payments.
pub open spec fn sol_release(accounts: Seq<AccountView>, escrow: Escrow, targets: Seq<PaymentTarget>) -> Result<
    Seq<Action>,
    ProgramError,
> {
    let n = targets.len() as int;
    let paid = total(target_amounts(targets));
    if exists|i: int|
        0 <= i < n && 3 + i < accounts.len() && accounts[3 + i].key != targets[i].recipient {
        Err(ProgramError::InvalidAccountData)
    } else if accounts.len() < 4 + n {
        Err(ProgramError::NotEnoughAccountKeys)
    } else if accounts[3 + n].key != escrow.buyer {
        Err(ProgramError::InvalidAccountData)
    } else if accounts[1].lamports < paid {
        Err(ProgramError::InsufficientFunds)
    } else {
        Ok(
            seq![Action::Store { account: accounts[1].key, escrow: completed(escrow) }] + Seq::new(
                n as nat,
                |i: int|
                    Action::MoveLamports {
                        from: accounts[1].key,
                        to: targets[i].recipient,
                        lamports: targets[i].amount,
                    },
            ) + seq![
                Action::MoveLamports {
                    from: accounts[1].key,
                    to: escrow.buyer,
                    lamports: (accounts[1].lamports - paid) as u64,
                },
            ],
        )
    }
}

/// How a release of tokens pays, given what deriving the escrow account's
/// address gave. After the three fixed accounts come the token program, the
/// escrow's token account and the buyer's account, then one token account for
/// each payment. The record is stored first; then the token program moves each
/// payment on the authority of the escrow account, which signs with the
/// derived bump seed, and closes the escrow's token account in favour of the buyer.
pub open spec fn spl_release_with(
    accounts: Seq<AccountView>,
    escrow: Escrow,
    targets: Seq<PaymentTarget>,
    derived: Option<(Seq<u8>, u8)>,
) -> Result<Seq<Action>, ProgramError> {
    let n = targets.len() as int;
    if accounts.len() < 6 {
        Err(ProgramError::NotEnoughAccountKeys)
    } else if accounts[5].key != escrow.buyer {
        Err(ProgramError::InvalidAccountData)
    } else {
        match derived {
            None => Err(ProgramError::InvalidSeeds),
            Some((_, bump)) => if accounts.len() < 6 + n {
                Err(ProgramError::NotEnoughAccountKeys)
            } else {
                Ok(
                    seq![Action::Store { account: accounts[1].key, escrow: completed(escrow) }]
                        + Seq::new(
                        n as nat,
                        |i: int|
                            Action::TokenTransfer {
                                token_program: accounts[3].key,
                                source: accounts[4].key,
                                destination: accounts[6 + i].key,
                                authority: accounts[1].key,
                                amount: targets[i].amount,
                                authority_bump: Some(bump),
                            },
                    ) + seq![
                        Action::CloseTokenAccount {
                            token_program: accounts[3].key,
                            account: accounts[4].key,
                            destination: escrow.buyer,
                            authority: accounts[1].key,
                            bump_seed: bump,
                        },
                    ],
                )
            },
        }
    }
}

/// How a release of tokens pays: as `spl_release_with` says, with the address
/// derived from the escrow's seeds for the program.
pub open spec fn spl_release(
    program_id: Address,
    accounts: Seq<AccountView>,
    escrow: Escrow,
    targets: Seq<PaymentTarget>,
) -> Result<Seq<Action>, ProgramError> {
    spl_release_with(
        accounts,
        escrow,
        targets,
        program_address(
            escrow_seeds(escrow.buyer, escrow.seller, escrow.moderator, escrow.unique_id@),
            program_id@,
        ),
    )
}

/// What `Release` does. The accounts are the initiator, the escrow account
/// and the clock, then those of the payments. There may be at most four
/// payments; the escrow must be active; the initiator must be the buyer or the
/// seller; the payments must pass their checks; and only then the recorded
/// signatures must satisfy the release rule at the ledger's time.
pub open spec fn release_outcome(
    program_id: Address,
    accounts: Seq<AccountView>,
    env: Environment,
    targets: Seq<PaymentTarget>,
) -> Result<Seq<Action>, ProgramError> {
    if targets.len() > 4 {
        Err(ProgramError::InvalidArgument)
    } else if accounts.len() < 3 {
        Err(ProgramError::NotEnoughAccountKeys)
    } else if accounts[2].key@ != CLOCK_SYSVAR_ID@ {
        Err(ProgramError::InvalidArgument)
    } else {
        match record_in(accounts[1].data@) {
            None => Err(ProgramError::InvalidAccountData),
            Some(escrow) => if escrow.state != EscrowState::Active {
                Err(custom(EscrowError::AlreadyCompleted))
            } else if accounts[0].key != escrow.buyer && accounts[0].key != escrow.seller {
                Err(ProgramError::InvalidAccountData)
            } else {
                match targets_refusal(targets, escrow.amount) {
                    Some(e) => Err(e),
                    None => if !release_authorized(
                        escrow.spec_signed_parties().to_set(),
                        escrow.spec_roles(),
                        escrow.required_signatures,
                        escrow.unlock_time,
                        env.unix_timestamp,
                    ) {
                        Err(custom(EscrowError::InsufficientSignatures))
                    } else {
                        match escrow.token_type {
                            TokenType::Sol => sol_release(accounts, escrow, targets),
                            TokenType::Spl(_) => spl_release(program_id, accounts, escrow, targets),
                        }
                    },
                }
            },
        }
    }
}

/// The time at which an escrow opened at `now` unlocks: never (zero) for zero
/// hours, else `now` plus the hours in seconds; `None` if that does not fit.
pub open spec fn unlock_time_for(now: i64, unlock_hours: u64) -> Option<i64> {
    if unlock_hours == 0 {
        Some(0)
    } else if now + unlock_hours * 3600 > i64::MAX {
        None
    } else {
        Some((now + unlock_hours * 3600) as i64)
    }
}

/// The record of a freshly opened escrow.
pub open spec fn opened(
    buyer: Address,
    seller: Address,
    moderator: Option<Address>,
    unique_id: [u8; 20],
    required_signatures: u8,
    unlock_time: i64,
    token_type: TokenType,
    bump_seed: u8,
) -> Escrow {
    Escrow {
        state: EscrowState::Active,
        buyer,
        seller,
        moderator,
        token_type,
        amount: 0,
        unlock_time,
        required_signatures,
        buyer_signed: false,
        seller_signed: false,
        moderator_signed: false,
        is_initialized: true,
        unique_id,
        bump_seed,
    }
}

/// What `Initialize` does, given what deriving the escrow account's address
/// gave. The accounts are the buyer, the escrow account, the seller, the
/// system program, the rent account and the clock; for tokens then the mint,
/// the token program, the escrow's token account and the rent account again.
/// The buyer must have signed; the threshold must be at least one and at most
/// the number of parties; the unlock time must fit; the mint account must be
/// the asset's mint; and the escrow account must be the derived address. Then
/// the account is created, for tokens its token account initialized, and the
/// record stored.
pub open spec fn initialize_with(
    accounts: Seq<AccountView>,
    env: Environment,
    moderator: Option<Address>,
    unique_id: [u8; 20],
    required_signatures: u8,
    unlock_hours: u64,
    token_type: TokenType,
    derived: Option<(Seq<u8>, u8)>,
) -> Result<Seq<Action>, ProgramError> {
    if accounts.len() < 5 {
        Err(ProgramError::NotEnoughAccountKeys)
    } else if accounts[4].key@ != RENT_SYSVAR_ID@ {
        Err(ProgramError::InvalidArgument)
    } else if accounts.len() < 6 {
        Err(ProgramError::NotEnoughAccountKeys)
    } else if accounts[5].key@ != CLOCK_SYSVAR_ID@ {
        Err(ProgramError::InvalidArgument)
    } else if !accounts[0].is_signer {
        Err(ProgramError::MissingRequiredSignature)
    } else if !threshold_valid(required_signatures, moderator) {
        Err(custom(EscrowError::InvalidRequiredSignatures))
    } else {
        match unlock_time_for(env.unix_timestamp, unlock_hours) {
            None => Err(ProgramError::InvalidArgument),
            Some(unlock_time) => if token_type is Spl && accounts.len() < 7 {
                Err(ProgramError::NotEnoughAccountKeys)
            } else if token_type matches TokenType::Spl(mint) && accounts[6].key != mint {
                Err(ProgramError::InvalidAccountData)
            } else {
                match derived {
                    None => Err(ProgramError::InvalidSeeds),
                    Some((address, bump)) => if accounts[1].key@ != address {
                        Err(ProgramError::InvalidSeeds)
                    } else if token_type is Spl && accounts.len() < 10 {
                        Err(ProgramError::NotEnoughAccountKeys)
                    } else {
                        let create = Action::CreateAccount {
                            payer: accounts[0].key,
                            account: accounts[1].key,
                            lamports: env.rent_exempt_minimum,
                            space: 256,
                            bump_seed: bump,
                        };
                        let store = Action::Store {
                            account: accounts[1].key,
                            escrow: opened(
                                accounts[0].key,
                                accounts[2].key,
                                moderator,
                                unique_id,
                                required_signatures,
                                unlock_time,
                                token_type,
                                bump,
                            ),
                        };
                        match token_type {
                            TokenType::Sol => Ok(seq![create, store]),
                            TokenType::Spl(mint) => Ok(
                                seq![
                                    create,
                                    Action::InitializeTokenAccount {
                                        token_program: accounts[7].key,
                                        account: accounts[8].key,
                                        mint,
                                        owner: accounts[1].key,
                                        rent: accounts[9].key,
                                        bump_seed: bump,
                                    },
                                    store,
                                ],
                            ),
                        }
                    },
                }
            },
        }
    }
}

/// What `Initialize` does: as `initialize_with` says, with the address
/// derived for the program from the buyer, the seller, the moderator and the
/// identifier.
pub open spec fn initialize_outcome(
    program_id: Address,
    accounts: Seq<AccountView>,
    env: Environment,
    moderator: Option<Address>,
    unique_id: [u8; 20],
    required_signatures: u8,
    unlock_hours: u64,
    token_type: TokenType,
) -> Result<Seq<Action>, ProgramError> {
    initialize_with(
        accounts,
        env,
        moderator,
        unique_id,
        required_signatures,
        unlock_hours,
        token_type,
        program_address(
            escrow_seeds(accounts[0].key, accounts[2].key, moderator, unique_id@),
            program_id@,
        ),
    )
}

/// What deriving an address gave, with the address as its bytes.
pub open spec fn derived_view(derived: Option<(Address, u8)>) -> Option<(Seq<u8>, u8)> {
    match derived {
        Some((address, bump)) => Some((address@, bump)),
        None => None,
    }
}

/// Builds the seeds of an escrow account's address.
pub fn make_escrow_seeds(
    buyer: &Address,
    seller: &Address,
    moderator: &Option<Address>,
    unique_id: &[u8; 20],
) -> (seeds: Vec<Vec<u8>>)
    ensures
        views(seeds@) == escrow_seeds(*buyer, *seller, *moderator, unique_id@),
{
    let mut seeds: Vec<Vec<u8>> = Vec::new();
    seeds.push(slice_to_vec(ESCROW_SEED_PREFIX.as_slice()));
    seeds.push(slice_to_vec(buyer.bytes.as_slice()));
    seeds.push(slice_to_vec(seller.bytes.as_slice()));
    match moderator {
        Some(m) => {
            seeds.push(slice_to_vec(m.bytes.as_slice()));
        },
        None => {
            seeds.push(Vec::new());
        },
    }
    seeds.push(slice_to_vec(unique_id.as_slice()));
    assert(views(seeds@) =~= escrow_seeds(*buyer, *seller, *moderator, unique_id@));
    seeds
}

/// The amounts of a list of payments.
pub fn amounts_of(targets: &[PaymentTarget]) -> (amounts: Vec<u64>)
    ensures
        amounts@ == target_amounts(targets@),
{
    let mut amounts: Vec<u64> = Vec::new();
    let mut i: usize = 0;
    while i < targets.len()
        invariant
            i <= targets.len(),
            amounts@.len() == i,
            forall|j: int| 0 <= j < i ==> amounts@[j] == targets@[j].amount,
        decreases targets.len() - i,
    {
        amounts.push(targets[i].amount);
        i += 1;
    }
    assert(amounts@ =~= target_amounts(targets@));
    amounts
}

/// Computes the time at which an escrow opened at `now` unlocks.
pub fn unlock_time(now: i64, unlock_hours: u64) -> (r: Option<i64>)
    ensures
        r == unlock_time_for(now, unlock_hours),
{
    if unlock_hours == 0 {
        return Some(0);
    }
    let unlock: i128 = now as i128 + (unlock_hours as i128) * 3600;
    if unlock > i64::MAX as i128 {
        None
    } else {
        Some(unlock as i64)
    }
}

impl Escrow {
    /// Records the signature of `signer`. Signing again changes nothing.
    pub fn sign(&self, signer: &Address) -> (r: Option<Escrow>)
        ensures
            r == signed_by(*self, *signer),
    {
        if *signer == self.buyer {
            Some(Escrow { buyer_signed: true, ..*self })
        } else if *signer == self.seller {
            Some(Escrow { seller_signed: true, ..*self })
        } else {
            match self.moderator {
                Some(m) => {
                    if *signer == m {
                        Some(Escrow { moderator_signed: true, ..*self })
                    } else {
                        None
                    }
                },
                None => None,
            }
        }
    }

    /// Adds `amount` to the balance of an active escrow.
    pub fn deposit(&self, amount: u64) -> (r: Result<Escrow, ProgramError>)
        ensures
            r == deposited(*self, amount),
    {
        if !matches!(self.state, EscrowState::Active) {
            return Err(program_error(EscrowError::AlreadyCompleted));
        }
        if amount == 0 {
            return Err(ProgramError::InvalidArgument);
        }
        match self.amount.checked_add(amount) {
            Some(sum) => Ok(Escrow { amount: sum, ..*self }),
            None => Err(program_error(EscrowError::AmountOverflow)),
        }
    }
}

/// The instruction whose bytes are `data`, if there is one.
pub open spec fn decoded(data: Seq<u8>) -> Option<InstructionView> {
    if exists|v: InstructionView| v.packable() && v.bytes() == data {
        Some(choose|v: InstructionView| v.packable() && v.bytes() == data)
    } else {
        None
    }
}

/// What the program does with the instruction whose bytes are `data`: it
/// refuses bytes that are no instruction, and hands every other instruction
/// to its handler.
pub open spec fn process_outcome(
    program_id: Address,
    accounts: Seq<AccountView>,
    env: Environment,
    data: Seq<u8>,
) -> Result<Seq<Action>, ProgramError> {
    match decoded(data) {
        None => Err(custom(EscrowError::InvalidInstruction)),
        Some(InstructionView::Initialize {
            moderator,
            unique_id,
            required_signatures,
            unlock_hours,
            token_type,
        }) => initialize_outcome(
            program_id,
            accounts,
            env,
            moderator,
            unique_id,
            required_signatures,
            unlock_hours,
            token_type,
        ),
        Some(InstructionView::Deposit { amount }) => deposit_outcome(accounts, amount),
        Some(InstructionView::Sign) => sign_outcome(accounts),
        Some(InstructionView::Release { payment_targets }) => release_outcome(
            program_id,
            accounts,
            env,
            payment_targets,
        ),
    }
}

/// The escrow program.
pub struct Processor;

impl Processor {
    /// Handles one instruction of the program: decodes `instruction_data` and
    /// hands the instruction to its handler.
    pub fn process(
        program_id: &Address,
        accounts: &[AccountView],
        env: &Environment,
        instruction_data: &[u8],
    ) -> (r: Result<Vec<Action>, ProgramError>)
        ensures
            match r {
                Ok(actions) => process_outcome(*program_id, accounts@, *env, instruction_data@)
                    == Ok::<Seq<Action>, ProgramError>(actions@),
                Err(e) => process_outcome(*program_id, accounts@, *env, instruction_data@) == Err::<
                    Seq<Action>,
                    ProgramError,
                >(e),
            },
    {
        let instruction = match EscrowInstruction::try_from_slice(instruction_data) {
            Ok(instruction) => instruction,
            Err(e) => {
                return Err(program_error(e));
            },
        };
        proof {
            let chosen = choose|v: InstructionView| v.packable() && v.bytes() == instruction_data@;
            lemma_bytes_unique(instruction@, chosen);
        }
        match instruction {
            EscrowInstruction::Initialize {
                moderator,
                unique_id,
                required_signatures,
                unlock_hours,
                token_type,
            } => Self::process_initialize(
                program_id,
                accounts,
                env,
                moderator,
                unique_id,
                required_signatures,
                unlock_hours,
                token_type,
            ),
            EscrowInstruction::Deposit { amount } => Self::process_deposit(accounts, amount),
            EscrowInstruction::Sign => Self::process_sign(accounts),
            EscrowInstruction::Release { payment_targets } => Self::process_release(
                program_id,
                accounts,
                env,
                payment_targets.as_slice(),
            ),
        }
    }

    /// Handles `Sign`. The accounts are the signer and the escrow account.
    pub fn process_sign(accounts: &[AccountView]) -> (r: Result<Vec<Action>, ProgramError>)
        ensures
            match r {
                Ok(actions) => sign_outcome(accounts@) == Ok::<Seq<Action>, ProgramError>(actions@),
                Err(e) => sign_outcome(accounts@) == Err::<Seq<Action>, ProgramError>(e),
            },
    {
        if accounts.len() < 2 {
            return Err(ProgramError::NotEnoughAccountKeys);
        }
        let signer = &accounts[0];
        let escrow_account = &accounts[1];
        if !signer.is_signer {
            return Err(ProgramError::MissingRequiredSignature);
        }
        let escrow = match load_escrow(escrow_account.data.as_slice()) {
            Ok(e) => e,
            Err(e) => {
                return Err(e);
            },
        };
        if !matches!(escrow.state, EscrowState::Active) {
            return Err(program_error(EscrowError::AlreadyCompleted));
        }
        let next = match escrow.sign(&signer.key) {
            Some(next) => next,
            None => {
                return Err(program_error(EscrowError::InvalidSigner));
            },
        };
        let mut actions: Vec<Action> = Vec::new();
        actions.push(Action::Store { account: escrow_account.key, escrow: next });
        assert(actions@ =~= seq![Action::Store { account: accounts@[1].key, escrow: next }]);
        Ok(actions)
    }

    /// Handles `Deposit`. The accounts are the depositor and the escrow
    /// account, then the system program for the native coin, or the token
    /// program, the source and the destination token account for tokens.
    pub fn process_deposit(accounts: &[AccountView], amount: u64) -> (r: Result<
        Vec<Action>,
        ProgramError,
    >)
        ensures
            match r {
                Ok(actions) => deposit_outcome(accounts@, amount) == Ok::<
                    Seq<Action>,
                    ProgramError,
                >(actions@),
                Err(e) => deposit_outcome(accounts@, amount) == Err::<Seq<Action>, ProgramError>(e),
            },
    {
        if accounts.len() < 2 {
            return Err(ProgramError::NotEnoughAccountKeys);
        }
        let depositor = &accounts[0];
        let escrow_account = &accounts[1];
        if !depositor.is_signer {
            return Err(ProgramError::MissingRequiredSignature);
        }
        let escrow = match load_escrow(escrow_account.data.as_slice()) {
            Ok(e) => e,
            Err(e) => {
                return Err(e);
            },
        };
        if !matches!(escrow.state, EscrowState::Active) {
            return Err(program_error(EscrowError::AlreadyCompleted));
        }
        if amount == 0 {
            return Err(ProgramError::InvalidArgument);
        }
        let transfer = match escrow.token_type {
            TokenType::Sol => {
                if accounts.len() < 3 {
                    return Err(ProgramError::NotEnoughAccountKeys);
                }
                let system_program = &accounts[2];
                if !system_program.key.is(&SYSTEM_PROGRAM_ID) {
                    return Err(ProgramError::InvalidAccountData);
                }
                Action::Transfer { from: depositor.key, to: escrow_account.key, lamports: amount }
            },
            TokenType::Spl(mint) => {
                if accounts.len() < 5 {
                    return Err(ProgramError::NotEnoughAccountKeys);
                }
                let token_program = &accounts[2];
                let source = &accounts[3];
                let destination = &accounts[4];
                if !token_program.key.is(&TOKEN_PROGRAM_ID) {
                    return Err(ProgramError::InvalidAccountData);
                }
                let source_mint = match unpack_token_account_mint(source.data.as_slice()) {
                    Ok(m) => m,
                    Err(e) => {
                        return Err(e);
                    },
                };
                proof {
                    lemma_address_eq(source_mint, mint);
                }
                if source_mint != mint {
                    return Err(ProgramError::InvalidAccountData);
                }
                Action::TokenTransfer {
                    token_program: token_program.key,
                    source: source.key,
                    destination: destination.key,
                    authority: depositor.key,
                    amount,
                    authority_bump: None,
                }
            },
        };
        let next = match escrow.deposit(amount) {
            Ok(next) => next,
            Err(e) => {
                return Err(e);
            },
        };
        let mut actions: Vec<Action> = Vec::new();
        actions.push(transfer);
        actions.push(Action::Store { account: escrow_account.key, escrow: next });
        assert(actions@ =~= seq![transfer, Action::Store { account: accounts@[1].key, escrow: next }]);
        Ok(actions)
    }

    /// Handles `Release`. The accounts are the initiator, the escrow account
    /// and the clock; then, for the native coin, one account for each payment
    /// and the buyer's account; for tokens, the token program, the escrow's
    /// token account and the buyer's account, then one token account for each payment.
    #[verifier::loop_isolation(false)]
    pub fn process_release(
        program_id: &Address,
        accounts: &[AccountView],
        env: &Environment,
        payment_targets: &[PaymentTarget],
    ) -> (r: Result<Vec<Action>, ProgramError>)
        ensures
            match r {
                Ok(actions) => release_outcome(*program_id, accounts@, *env, payment_targets@)
                    == Ok::<Seq<Action>, ProgramError>(actions@),
                Err(e) => release_outcome(*program_id, accounts@, *env, payment_targets@) == Err::<
                    Seq<Action>,
                    ProgramError,
                >(e),
            },
    {
        if payment_targets.len() > MAX_PAYMENT_TARGETS {
            return Err(ProgramError::InvalidArgument);
        }
        if accounts.len() < 3 {
            return Err(ProgramError::NotEnoughAccountKeys);
        }
        let initiator = &accounts[0];
        let escrow_account = &accounts[1];
        if !accounts[2].key.is(&CLOCK_SYSVAR_ID) {
            return Err(ProgramError::InvalidArgument);
        }
        let escrow = match load_escrow(escrow_account.data.as_slice()) {
            Ok(e) => e,
            Err(e) => {
                return Err(e);
            },
        };
        if !matches!(escrow.state, EscrowState::Active) {
            return Err(program_error(EscrowError::AlreadyCompleted));
        }
        if initiator.key != escrow.buyer && initiator.key != escrow.seller {
            return Err(ProgramError::InvalidAccountData);
        }
        if payment_targets.len() == 0 {
            return Err(program_error(EscrowError::EmptyPaymentTargets));
        }
        let amounts = amounts_of(payment_targets);
        if has_zero(amounts.as_slice()) {
            return Err(program_error(EscrowError::ZeroAmount));
        }
        let paid: u64 = match total_within(amounts.as_slice(), escrow.amount) {
            Some(sum) => sum,
            None => {
                return Err(program_error(EscrowError::PaymentAmountExceedsEscrow));
            },
        };
        let signed = escrow.signed_parties();
        let roles = escrow.roles();
        match authorize(
            signed.as_slice(),
            &roles,
            escrow.required_signatures,
            escrow.unlock_time,
            env.unix_timestamp,
        ) {
            Ok(_) => {},
            Err(_) => {
                return Err(program_error(EscrowError::InsufficientSignatures));
            },
        }
        match escrow.token_type {
            TokenType::Sol => {
                let done = Escrow { state: EscrowState::Completed, amount: 0, ..escrow };
                let n: usize = payment_targets.len();
                let mut actions: Vec<Action> = Vec::new();
                actions.push(Action::Store { account: escrow_account.key, escrow: done });
                let ghost moves = Seq::new(
                    n as nat,
                    |i: int|
                        Action::MoveLamports {
                            from: accounts@[1].key,
                            to: payment_targets@[i].recipient,
                            lamports: payment_targets@[i].amount,
                        },
                );
                let ghost head = actions@;
                let mut i: usize = 0;
                while i < n
                    invariant
                        i <= n,
                        n == payment_targets.len(),
                        n <= 4,
                        accounts.len() >= 3,
                        forall|j: int|
                            0 <= j < i ==> 3 + j < accounts.len() && accounts@[3 + j].key
                                == payment_targets@[j].recipient,
                        actions@ == head + moves.subrange(0, i as int),
                        moves.len() == n,
                        moves == Seq::new(
                            n as nat,
                            |i: int|
                                Action::MoveLamports {
                                    from: accounts@[1].key,
                                    to: payment_targets@[i].recipient,
                                    lamports: payment_targets@[i].amount,
                                },
                        ),
                    decreases n - i,
                {
                    if 3 + i >= accounts.len() {
                        return Err(ProgramError::NotEnoughAccountKeys);
                    }
                    let recipient = &accounts[3 + i];
                    if payment_targets[i].recipient != recipient.key {
                        return Err(ProgramError::InvalidAccountData);
                    }
                    actions.push(
                        Action::MoveLamports {
                            from: escrow_account.key,
                            to: payment_targets[i].recipient,
                            lamports: payment_targets[i].amount,
                        },
                    );
                    assert(actions@ =~= head + moves.subrange(0, i + 1));
                    i += 1;
                }
                if accounts.len() < 4 + n {
                    return Err(ProgramError::NotEnoughAccountKeys);
                }
                let buyer = &accounts[3 + n];
                if buyer.key != escrow.buyer {
                    return Err(ProgramError::InvalidAccountData);
                }
                if escrow_account.lamports < paid {
                    return Err(ProgramError::InsufficientFunds);
                }
                let refund = Action::MoveLamports {
                    from: escrow_account.key,
                    to: escrow.buyer,
                    lamports: escrow_account.lamports - paid,
                };
                actions.push(refund);
                proof {
                    assert(moves.subrange(0, n as int) =~= moves);
                    assert(head =~= seq![Action::Store { account: accounts@[1].key, escrow: done }]);
                    assert(actions@ =~= head + moves + seq![refund]);
                    assert(!(exists|i: int|
                        0 <= i < n && 3 + i < accounts@.len() && accounts@[3 + i].key
                            != payment_targets@[i].recipient));
                    assert(sol_release(accounts@, escrow, payment_targets@) == Ok::<
                        Seq<Action>,
                        ProgramError,
                    >(actions@));
                }
                Ok(actions)
            },
            TokenType::Spl(_) => {
                let derived = if accounts.len() >= 6 {
                    let seeds = make_escrow_seeds(
                        &escrow.buyer,
                        &escrow.seller,
                        &escrow.moderator,
                        &escrow.unique_id,
                    );
                    try_find_program_address(&seeds, program_id)
                } else {
                    None
                };
                Self::release_tokens(accounts, &escrow, payment_targets, derived)
            },
        }
    }

    /// Plans the payout of a release of tokens, given what deriving the
    /// escrow account's address gave. The accounts are those of `Release`.
    #[verifier::loop_isolation(false)]
    pub fn release_tokens(
        accounts: &[AccountView],
        escrow: &Escrow,
        payment_targets: &[PaymentTarget],
        derived: Option<(Address, u8)>,
    ) -> (r: Result<Vec<Action>, ProgramError>)
        ensures
            match r {
                Ok(actions) => spl_release_with(
                    accounts@,
                    *escrow,
                    payment_targets@,
                    derived_view(derived),
                ) == Ok::<Seq<Action>, ProgramError>(actions@),
                Err(e) => spl_release_with(
                    accounts@,
                    *escrow,
                    payment_targets@,
                    derived_view(derived),
                ) == Err::<Seq<Action>, ProgramError>(e),
            },
    {
        if accounts.len() < 6 {
            return Err(ProgramError::NotEnoughAccountKeys);
        }
        let escrow_account = &accounts[1];
        let token_program = &accounts[3];
        let escrow_token_account = &accounts[4];
        let buyer = &accounts[5];
        if buyer.key != escrow.buyer {
            return Err(ProgramError::InvalidAccountData);
        }
        let bump: u8 = match derived {
            Some((_, bump)) => bump,
            None => {
                return Err(ProgramError::InvalidSeeds);
            },
        };
        let n: usize = payment_targets.len();
        if accounts.len() - 6 < n {
            return Err(ProgramError::NotEnoughAccountKeys);
        }
        let done = Escrow { state: EscrowState::Completed, amount: 0, ..*escrow };
        let mut actions: Vec<Action> = Vec::new();
        actions.push(Action::Store { account: escrow_account.key, escrow: done });
        let ghost moves = Seq::new(
            n as nat,
            |i: int|
                Action::TokenTransfer {
                    token_program: accounts@[3].key,
                    source: accounts@[4].key,
                    destination: accounts@[6 + i].key,
                    authority: accounts@[1].key,
                    amount: payment_targets@[i].amount,
                    authority_bump: Some(bump),
                },
        );
        let ghost head = actions@;
        let mut i: usize = 0;
        while i < n
            invariant
                i <= n,
                n == payment_targets.len(),
                accounts.len() >= 6 + n,
                actions@ == head + moves.subrange(0, i as int),
                moves.len() == n,
            decreases n - i,
        {
            actions.push(
                Action::TokenTransfer {
                    token_program: accounts[3].key,
                    source: accounts[4].key,
                    destination: accounts[6 + i].key,
                    authority: accounts[1].key,
                    amount: payment_targets[i].amount,
                    authority_bump: Some(bump),
                },
            );
            assert(actions@ =~= head + moves.subrange(0, i + 1));
            i += 1;
        }
        let close = Action::CloseTokenAccount {
            token_program: token_program.key,
            account: escrow_token_account.key,
            destination: escrow.buyer,
            authority: escrow_account.key,
            bump_seed: bump,
        };
        actions.push(close);
        proof {
            assert(moves.subrange(0, n as int) =~= moves);
            assert(head =~= seq![Action::Store { account: accounts@[1].key, escrow: done }]);
            assert(actions@ =~= head + moves + seq![close]);
        }
        Ok(actions)
    }

    /// Handles `Initialize`. The accounts are the buyer, the escrow account,
    /// the seller, the system program, the rent account and the clock; for
    /// tokens then the mint, the token program, the escrow's token account
    /// and the rent account.
    pub fn process_initialize(
        program_id: &Address,
        accounts: &[AccountView],
        env: &Environment,
        moderator: Option<Address>,
        unique_id: [u8; 20],
        required_signatures: u8,
        unlock_hours: u64,
        token_type: TokenType,
    ) -> (r: Result<Vec<Action>, ProgramError>)
        ensures
            match r {
                Ok(actions) => initialize_outcome(
                    *program_id,
                    accounts@,
                    *env,
                    moderator,
                    unique_id,
                    required_signatures,
                    unlock_hours,
                    token_type,
                ) == Ok::<Seq<Action>, ProgramError>(actions@),
                Err(e) => initialize_outcome(
                    *program_id,
                    accounts@,
                    *env,
                    moderator,
                    unique_id,
                    required_signatures,
                    unlock_hours,
                    token_type,
                ) == Err::<Seq<Action>, ProgramError>(e),
            },
    {
        let derived = if accounts.len() >= 6 {
            let seeds = make_escrow_seeds(&accounts[0].key, &accounts[2].key, &moderator, &unique_id);
            try_find_program_address(&seeds, program_id)
        } else {
            None
        };
        Self::initialize_with(
            accounts,
            env,
            moderator,
            unique_id,
            required_signatures,
            unlock_hours,
            token_type,
            derived,
        )
    }

    /// Plans the opening of an escrow, given what deriving the escrow
    /// account's address gave. The accounts are those of `Initialize`.
    pub fn initialize_with(
        accounts: &[AccountView],
        env: &Environment,
        moderator: Option<Address>,
        unique_id: [u8; 20],
        required_signatures: u8,
        unlock_hours: u64,
        token_type: TokenType,
        derived: Option<(Address, u8)>,
    ) -> (r: Result<Vec<Action>, ProgramError>)
        ensures
            match r {
                Ok(actions) => initialize_with(
                    accounts@,
                    *env,
                    moderator,
                    unique_id,
                    required_signatures,
                    unlock_hours,
                    token_type,
                    derived_view(derived),
                ) == Ok::<Seq<Action>, ProgramError>(actions@),
                Err(e) => initialize_with(
                    accounts@,
                    *env,
                    moderator,
                    unique_id,
                    required_signatures,
                    unlock_hours,
                    token_type,
                    derived_view(derived),
                ) == Err::<Seq<Action>, ProgramError>(e),
            },
    {
        if accounts.len() < 5 {
            return Err(ProgramError::NotEnoughAccountKeys);
        }
        let buyer = &accounts[0];
        let escrow_account = &accounts[1];
        let seller = &accounts[2];
        if !accounts[4].key.is(&RENT_SYSVAR_ID) {
            return Err(ProgramError::InvalidArgument);
        }
        if accounts.len() < 6 {
            return Err(ProgramError::NotEnoughAccountKeys);
        }
        if !accounts[5].key.is(&CLOCK_SYSVAR_ID) {
            return Err(ProgramError::InvalidArgument);
        }
        if !buyer.is_signer {
            return Err(ProgramError::MissingRequiredSignature);
        }
        let max_possible: u8 = if moderator.is_some() {
        MAX_REQUIRED_SIGNATURES + 1
    } else {
        MAX_REQUIRED_SIGNATURES
    };
        if required_signatures == 0 || required_signatures > max_possible {
            return Err(program_error(EscrowError::InvalidRequiredSignatures));
        }
        let unlock: i64 = match unlock_time(env.unix_timestamp, unlock_hours) {
            Some(t) => t,
            None => {
                return Err(ProgramError::InvalidArgument);
            },
        };
        match token_type {
            TokenType::Spl(mint) => {
                if accounts.len() < 7 {
                    return Err(ProgramError::NotEnoughAccountKeys);
                }
                if accounts[6].key != mint {
                    return Err(ProgramError::InvalidAccountData);
                }
            },
            TokenType::Sol => {},
        }
        let (address, bump) = match derived {
            Some(found) => found,
            None => {
                return Err(ProgramError::InvalidSeeds);
            },
        };
        proof {
            lemma_address_eq(escrow_account.key, address);
        }
        if escrow_account.key != address {
            return Err(ProgramError::InvalidSeeds);
        }
        let escrow = Escrow {
            state: EscrowState::Active,
            buyer: buyer.key,
            seller: seller.key,
            moderator,
            token_type,
            amount: 0,
            unlock_time: unlock,
            required_signatures,
            buyer_signed: false,
            seller_signed: false,
            moderator_signed: false,
            is_initialized: true,
            unique_id,
            bump_seed: bump,
        };
        let create = Action::CreateAccount {
            payer: buyer.key,
            account: escrow_account.key,
            lamports: env.rent_exempt_minimum,
            space: 256,
            bump_seed: bump,
        };
        let store = Action::Store { account: escrow_account.key, escrow };
        let mut actions: Vec<Action> = Vec::new();
        actions.push(create);
        match token_type {
            TokenType::Spl(mint) => {
                if accounts.len() < 10 {
                    return Err(ProgramError::NotEnoughAccountKeys);
                }
                let init = Action::InitializeTokenAccount {
                    token_program: accounts[7].key,
                    account: accounts[8].key,
                    mint,
                    owner: escrow_account.key,
                    rent: accounts[9].key,
                    bump_seed: bump,
                };
                actions.push(init);
                actions.push(store);
                assert(actions@ =~= seq![create, init, store]);
            },
            TokenType::Sol => {
                actions.push(store);
                assert(actions@ =~= seq![create, store]);
            },
        }
        Ok(actions)
    }
}

} // verus!
