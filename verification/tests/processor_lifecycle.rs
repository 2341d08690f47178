use escrow_program::address::{
    Address, CLOCK_SYSVAR_ID, RENT_SYSVAR_ID, SYSTEM_PROGRAM_ID, TOKEN_PROGRAM_ID,
};
use escrow_program::error::{EscrowError, ProgramError};
use escrow_program::instruction::EscrowInstruction;
use escrow_program::processor::{
    amounts_of, load_escrow, make_escrow_seeds, unlock_time, AccountView, Action, Environment,
    Processor,
};
use escrow_program::state::{Escrow, EscrowState, PaymentTarget, TokenType};
use spl_token::solana_program::program_option::COption;
use spl_token::solana_program::program_pack::Pack;

const NOW: i64 = 1_700_000_000;
const RENT: u64 = 2_672_640;

fn key(n: u8) -> Address {
    Address { bytes: [n; 32] }
}

fn program() -> Address {
    key(200)
}

fn env(now: i64) -> Environment {
    Environment { unix_timestamp: now, rent_exempt_minimum: RENT }
}

fn account(key: Address) -> AccountView {
    AccountView { key, is_signer: false, lamports: 0, data: Vec::new() }
}

fn signer(key: Address) -> AccountView {
    AccountView { key, is_signer: true, lamports: 1_000_000_000, data: Vec::new() }
}

fn fixed(id: [u8; 32]) -> AccountView {
    account(Address { bytes: id })
}

fn escrow_address(moderator: Option<&Address>) -> Address {
    let seeds: Vec<Vec<u8>> = vec![
        b"escrow".to_vec(),
        vec![1u8; 32],
        vec![2u8; 32],
        moderator.map(|m| m.bytes.to_vec()).unwrap_or_default(),
        vec![9u8; 20],
    ];
    let parts: Vec<&[u8]> = seeds.iter().map(|s| s.as_slice()).collect();
    let (address, _) = solana_pubkey::Pubkey::find_program_address(
        &parts,
        &solana_pubkey::Pubkey::new_from_array(program().bytes),
    );
    Address { bytes: address.to_bytes() }
}

fn holding(key: Address, escrow: &Escrow, lamports: u64) -> AccountView {
    let mut data = vec![0u8; Escrow::LEN];
    escrow.pack_into_slice(&mut data);
    AccountView { key, is_signer: false, lamports, data }
}

fn stored(actions: &[Action]) -> Escrow {
    for action in actions {
        if let Action::Store { escrow, .. } = action {
            return *escrow;
        }
    }
    panic!("no record stored");
}

fn initialize_accounts(escrow_key: Address) -> Vec<AccountView> {
    vec![
        signer(key(1)),
        account(escrow_key),
        account(key(2)),
        fixed(SYSTEM_PROGRAM_ID),
        fixed(RENT_SYSVAR_ID),
        fixed(CLOCK_SYSVAR_ID),
    ]
}

fn opened(unlock_hours: u64) -> (Address, Escrow) {
    let moderator = key(3);
    let escrow_key = escrow_address(Some(&moderator));
    let actions = Processor::process_initialize(
        &program(),
        &initialize_accounts(escrow_key),
        &env(NOW),
        Some(moderator),
        [9u8; 20],
        2,
        unlock_hours,
        TokenType::Sol,
    )
    .unwrap();
    (escrow_key, stored(&actions))
}

fn funded(unlock_hours: u64) -> (Address, Escrow) {
    let (escrow_key, escrow) = opened(unlock_hours);
    let accounts =
        vec![signer(key(1)), holding(escrow_key, &escrow, RENT), fixed(SYSTEM_PROGRAM_ID)];
    let actions = Processor::process_deposit(&accounts, 1000).unwrap();
    (escrow_key, stored(&actions))
}

fn sign_as(escrow_key: Address, escrow: &Escrow, who: Address) -> Escrow {
    let accounts = vec![signer(who), holding(escrow_key, escrow, RENT + 1000)];
    stored(&Processor::process_sign(&accounts).unwrap())
}

fn release_accounts(escrow_key: Address, escrow: &Escrow, recipients: &[Address]) -> Vec<AccountView> {
    let mut accounts = vec![
        signer(key(1)),
        holding(escrow_key, escrow, RENT + 1000),
        fixed(CLOCK_SYSVAR_ID),
    ];
    for r in recipients {
        accounts.push(account(*r));
    }
    accounts.push(account(key(1)));
    accounts
}

fn payout() -> Vec<PaymentTarget> {
    vec![
        PaymentTarget { recipient: key(21), amount: 600 },
        PaymentTarget { recipient: key(22), amount: 400 },
    ]
}

#[test]
fn initialize_creates_the_account_and_stores_the_record() {
    let moderator = key(3);
    let escrow_key = escrow_address(Some(&moderator));
    let actions = Processor::process_initialize(
        &program(),
        &initialize_accounts(escrow_key),
        &env(NOW),
        Some(moderator),
        [9u8; 20],
        2,
        1,
        TokenType::Sol,
    )
    .unwrap();
    assert_eq!(actions.len(), 2);
    let bump = match actions[0] {
        Action::CreateAccount { payer, account, lamports, space, bump_seed } => {
            assert_eq!((payer, account, lamports, space), (key(1), escrow_key, RENT, 256));
            bump_seed
        }
        _ => panic!("first action must create the account"),
    };
    assert_eq!(
        actions[1],
        Action::Store {
            account: escrow_key,
            escrow: Escrow {
                state: EscrowState::Active,
                buyer: key(1),
                seller: key(2),
                moderator: Some(moderator),
                token_type: TokenType::Sol,
                amount: 0,
                unlock_time: NOW + 3600,
                required_signatures: 2,
                buyer_signed: false,
                seller_signed: false,
                moderator_signed: false,
                is_initialized: true,
                unique_id: [9u8; 20],
                bump_seed: bump,
            }
        }
    );
}

#[test]
fn initialize_refusals() {
    let escrow_key = escrow_address(None);
    let run = |accounts: &[AccountView], required: u8, hours: u64| {
        Processor::process_initialize(
            &program(),
            accounts,
            &env(NOW),
            None,
            [9u8; 20],
            required,
            hours,
            TokenType::Sol,
        )
    };
    let good = initialize_accounts(escrow_key);
    assert!(run(&good, 1, 0).is_ok());
    assert_eq!(run(&good[..4], 1, 0), Err(ProgramError::NotEnoughAccountKeys));
    assert_eq!(run(&good[..5], 1, 0), Err(ProgramError::NotEnoughAccountKeys));
    let mut wrong_rent = good.clone();
    wrong_rent[4] = account(key(0));
    assert_eq!(run(&wrong_rent, 1, 0), Err(ProgramError::InvalidArgument));
    let mut wrong_clock = good.clone();
    wrong_clock[5] = fixed(RENT_SYSVAR_ID);
    assert_eq!(run(&wrong_clock, 1, 0), Err(ProgramError::InvalidArgument));
    let mut unsigned = good.clone();
    unsigned[0].is_signer = false;
    assert_eq!(run(&unsigned, 1, 0), Err(ProgramError::MissingRequiredSignature));
    assert_eq!(run(&good, 0, 0), Err(ProgramError::Custom(18)));
    assert_eq!(run(&good, 3, 0), Err(ProgramError::Custom(18)));
    assert_eq!(run(&good, 1, u64::MAX / 3600), Err(ProgramError::InvalidArgument));
    let mut elsewhere = good.clone();
    elsewhere[1] = account(key(77));
    assert_eq!(run(&elsewhere, 1, 0), Err(ProgramError::InvalidSeeds));
}

#[test]
fn initialize_for_tokens_checks_the_mint_and_initializes_the_token_account() {
    let escrow_key = escrow_address(None);
    let mint = key(40);
    let mut accounts = initialize_accounts(escrow_key);
    let run = |accounts: &[AccountView]| {
        Processor::process_initialize(
            &program(),
            accounts,
            &env(NOW),
            None,
            [9u8; 20],
            2,
            0,
            TokenType::Spl(mint),
        )
    };
    assert_eq!(run(&accounts), Err(ProgramError::NotEnoughAccountKeys));
    accounts.push(account(key(41)));
    assert_eq!(run(&accounts), Err(ProgramError::InvalidAccountData));
    accounts[6] = account(mint);
    assert_eq!(run(&accounts), Err(ProgramError::NotEnoughAccountKeys));
    accounts.push(fixed(TOKEN_PROGRAM_ID));
    accounts.push(account(key(60)));
    accounts.push(fixed(RENT_SYSVAR_ID));
    let actions = run(&accounts).unwrap();
    assert_eq!(actions.len(), 3);
    match actions[1] {
        Action::InitializeTokenAccount { token_program, account, mint: m, owner, rent, .. } => {
            assert_eq!(token_program, Address { bytes: TOKEN_PROGRAM_ID });
            assert_eq!((account, m, owner), (key(60), mint, escrow_key));
            assert_eq!(rent, Address { bytes: RENT_SYSVAR_ID });
        }
        _ => panic!("second action must initialize the token account"),
    }
    assert_eq!(stored(&actions).token_type, TokenType::Spl(mint));
}

#[test]
fn unlock_time_is_hours_after_now_or_never() {
    assert_eq!(unlock_time(NOW, 0), Some(0));
    assert_eq!(unlock_time(NOW, 1), Some(NOW + 3600));
    assert_eq!(unlock_time(NOW, 48), Some(NOW + 172_800));
    assert_eq!(unlock_time(i64::MAX - 3600, 1), Some(i64::MAX));
    assert_eq!(unlock_time(i64::MAX - 3599, 1), None);
    assert_eq!(unlock_time(0, u64::MAX), None);
    assert_eq!(unlock_time(i64::MIN, 2562047788015216), Some(1792));
}

#[test]
fn deposit_adds_to_the_balance() {
    let (escrow_key, escrow) = opened(0);
    let accounts =
        vec![signer(key(5)), holding(escrow_key, &escrow, RENT), fixed(SYSTEM_PROGRAM_ID)];
    let actions = Processor::process_deposit(&accounts, 1000).unwrap();
    assert_eq!(
        actions,
        vec![
            Action::Transfer { from: key(5), to: escrow_key, lamports: 1000 },
            Action::Store { account: escrow_key, escrow: Escrow { amount: 1000, ..escrow } },
        ]
    );
    let more = vec![
        signer(key(5)),
        holding(escrow_key, &stored(&actions), RENT + 1000),
        fixed(SYSTEM_PROGRAM_ID),
    ];
    assert_eq!(stored(&Processor::process_deposit(&more, 5).unwrap()).amount, 1005);
}

#[test]
fn deposit_refusals() {
    let (escrow_key, escrow) = opened(0);
    let good = vec![signer(key(5)), holding(escrow_key, &escrow, RENT), fixed(SYSTEM_PROGRAM_ID)];
    assert_eq!(Processor::process_deposit(&good[..1], 1), Err(ProgramError::NotEnoughAccountKeys));
    assert_eq!(Processor::process_deposit(&good[..2], 1), Err(ProgramError::NotEnoughAccountKeys));
    let mut unsigned = good.clone();
    unsigned[0].is_signer = false;
    assert_eq!(Processor::process_deposit(&unsigned, 1), Err(ProgramError::MissingRequiredSignature));
    let mut blank = good.clone();
    blank[1].data = vec![9u8; 256];
    assert_eq!(Processor::process_deposit(&blank, 1), Err(ProgramError::InvalidAccountData));
    assert_eq!(Processor::process_deposit(&good, 0), Err(ProgramError::InvalidArgument));
    let mut wrong_program = good.clone();
    wrong_program[2] = fixed(TOKEN_PROGRAM_ID);
    assert_eq!(Processor::process_deposit(&wrong_program, 1), Err(ProgramError::InvalidAccountData));
    let full = Escrow { amount: u64::MAX, ..escrow };
    let mut overflowing = good.clone();
    overflowing[1] = holding(escrow_key, &full, RENT);
    assert_eq!(
        Processor::process_deposit(&overflowing, 1),
        Err(ProgramError::from(EscrowError::AmountOverflow))
    );
    let done = Escrow { state: EscrowState::Completed, ..escrow };
    let mut completed = good.clone();
    completed[1] = holding(escrow_key, &done, RENT);
    assert_eq!(
        Processor::process_deposit(&completed, 1),
        Err(ProgramError::from(EscrowError::AlreadyCompleted))
    );
}

fn token_account(mint: Address, state: spl_token::state::AccountState) -> Vec<u8> {
    let account = spl_token::state::Account {
        mint: solana_pubkey::Pubkey::new_from_array(mint.bytes),
        owner: solana_pubkey::Pubkey::new_from_array([5u8; 32]),
        amount: 12345,
        delegate: COption::Some(solana_pubkey::Pubkey::new_from_array([6u8; 32])),
        state,
        is_native: COption::None,
        delegated_amount: 7,
        close_authority: COption::None,
    };
    let mut data = vec![0u8; spl_token::state::Account::LEN];
    spl_token::state::Account::pack_into_slice(&account, &mut data);
    data
}

#[test]
fn deposit_of_tokens_reads_the_source_mint() {
    let (escrow_key, escrow) = opened(0);
    let mint = key(40);
    let escrow = Escrow { token_type: TokenType::Spl(mint), ..escrow };
    let source = |data: Vec<u8>| AccountView { key: key(61), is_signer: false, lamports: 1, data };
    let accounts = |data: Vec<u8>| {
        vec![
            signer(key(5)),
            holding(escrow_key, &escrow, RENT),
            fixed(TOKEN_PROGRAM_ID),
            source(data),
            account(key(62)),
        ]
    };
    let good = token_account(mint, spl_token::state::AccountState::Initialized);
    let actions = Processor::process_deposit(&accounts(good.clone()), 10).unwrap();
    assert_eq!(
        actions[0],
        Action::TokenTransfer {
            token_program: Address { bytes: TOKEN_PROGRAM_ID },
            source: key(61),
            destination: key(62),
            authority: key(5),
            amount: 10,
            authority_bump: None,
        }
    );
    assert_eq!(stored(&actions).amount, 10);
    let frozen = token_account(mint, spl_token::state::AccountState::Frozen);
    assert!(Processor::process_deposit(&accounts(frozen), 10).is_ok());
    let other = token_account(key(41), spl_token::state::AccountState::Initialized);
    assert_eq!(
        Processor::process_deposit(&accounts(other), 10),
        Err(ProgramError::InvalidAccountData)
    );
    let blank = token_account(mint, spl_token::state::AccountState::Uninitialized);
    assert_eq!(
        Processor::process_deposit(&accounts(blank), 10),
        Err(ProgramError::UninitializedAccount)
    );
    assert_eq!(
        Processor::process_deposit(&accounts(good[..164].to_vec()), 10),
        Err(ProgramError::InvalidAccountData)
    );
    let mut bad_tag = good.clone();
    bad_tag[72] = 2;
    assert_eq!(
        Processor::process_deposit(&accounts(bad_tag), 10),
        Err(ProgramError::InvalidAccountData)
    );
    let mut bad_state = good.clone();
    bad_state[108] = 3;
    assert_eq!(
        Processor::process_deposit(&accounts(bad_state), 10),
        Err(ProgramError::InvalidAccountData)
    );
    let mut bad_native = good.clone();
    bad_native[110] = 1;
    assert_eq!(
        Processor::process_deposit(&accounts(bad_native), 10),
        Err(ProgramError::InvalidAccountData)
    );
    let mut bad_close = good;
    bad_close[132] = 9;
    assert_eq!(
        Processor::process_deposit(&accounts(bad_close), 10),
        Err(ProgramError::InvalidAccountData)
    );
    let mut wrong_program = accounts(token_account(mint, spl_token::state::AccountState::Initialized));
    wrong_program[2] = fixed(SYSTEM_PROGRAM_ID);
    assert_eq!(Processor::process_deposit(&wrong_program, 10), Err(ProgramError::InvalidAccountData));
}

#[test]
fn sign_sets_the_flag_of_the_party() {
    let (escrow_key, escrow) = funded(0);
    let after = sign_as(escrow_key, &escrow, key(2));
    assert_eq!(after, Escrow { seller_signed: true, ..escrow });
    let after = sign_as(escrow_key, &after, key(3));
    assert_eq!(after, Escrow { seller_signed: true, moderator_signed: true, ..escrow });
    let after = sign_as(escrow_key, &escrow, key(1));
    assert_eq!(after, Escrow { buyer_signed: true, ..escrow });
}

#[test]
fn signing_twice_changes_nothing() {
    let (escrow_key, escrow) = funded(0);
    let once = sign_as(escrow_key, &escrow, key(1));
    let twice = sign_as(escrow_key, &once, key(1));
    assert_eq!(once, twice);
    assert_eq!(twice.signed_parties(), vec![key(1)]);
    // One party signing twice does not make a quorum of two.
    let accounts = release_accounts(escrow_key, &twice, &[key(21), key(22)]);
    assert_eq!(
        Processor::process_release(&program(), &accounts, &env(NOW), &payout()),
        Err(ProgramError::from(EscrowError::InsufficientSignatures))
    );
    assert_eq!(escrow.sign(&key(1)), Some(once));
    assert_eq!(once.sign(&key(1)), Some(once));
    assert_eq!(escrow.sign(&key(9)), None);
}

#[test]
fn sign_refusals() {
    let (escrow_key, escrow) = funded(0);
    let stranger = vec![signer(key(9)), holding(escrow_key, &escrow, RENT)];
    assert_eq!(
        Processor::process_sign(&stranger),
        Err(ProgramError::from(EscrowError::InvalidSigner))
    );
    let mut unsigned = vec![signer(key(1)), holding(escrow_key, &escrow, RENT)];
    unsigned[0].is_signer = false;
    assert_eq!(Processor::process_sign(&unsigned), Err(ProgramError::MissingRequiredSignature));
    assert_eq!(Processor::process_sign(&unsigned[..1]), Err(ProgramError::NotEnoughAccountKeys));
    let done = Escrow { state: EscrowState::Completed, ..escrow };
    let completed = vec![signer(key(1)), holding(escrow_key, &done, RENT)];
    assert_eq!(
        Processor::process_sign(&completed),
        Err(ProgramError::from(EscrowError::AlreadyCompleted))
    );
}

#[test]
fn release_with_two_signatures_pays_and_completes() {
    let (escrow_key, escrow) = funded(0);
    let escrow = sign_as(escrow_key, &escrow, key(1));
    let escrow = sign_as(escrow_key, &escrow, key(2));
    let accounts = release_accounts(escrow_key, &escrow, &[key(21), key(22)]);
    let actions =
        Processor::process_release(&program(), &accounts, &env(NOW), &payout()).unwrap();
    assert_eq!(
        actions,
        vec![
            Action::Store {
                account: escrow_key,
                escrow: Escrow { state: EscrowState::Completed, amount: 0, ..escrow }
            },
            Action::MoveLamports { from: escrow_key, to: key(21), lamports: 600 },
            Action::MoveLamports { from: escrow_key, to: key(22), lamports: 400 },
            Action::MoveLamports { from: escrow_key, to: key(1), lamports: RENT },
        ]
    );
    // Everything the escrow account held has been moved, nothing more.
    let moved: u64 = actions
        .iter()
        .map(|a| match a {
            Action::MoveLamports { lamports, .. } => *lamports,
            _ => 0,
        })
        .sum();
    assert_eq!(moved, RENT + 1000);
}

#[test]
fn release_with_one_signature_is_insufficient() {
    let (escrow_key, escrow) = funded(0);
    let escrow = sign_as(escrow_key, &escrow, key(1));
    let accounts = release_accounts(escrow_key, &escrow, &[key(21), key(22)]);
    assert_eq!(
        Processor::process_release(&program(), &accounts, &env(NOW + 1_000_000), &payout()),
        Err(ProgramError::from(EscrowError::InsufficientSignatures))
    );
}

#[test]
fn release_after_timelock_needs_the_seller_only() {
    let (escrow_key, escrow) = funded(1);
    let by_seller = sign_as(escrow_key, &escrow, key(2));
    let targets = vec![PaymentTarget { recipient: key(2), amount: 1000 }];
    let accounts = release_accounts(escrow_key, &by_seller, &[key(2)]);
    assert_eq!(
        Processor::process_release(&program(), &accounts, &env(NOW + 3599), &targets),
        Err(ProgramError::from(EscrowError::InsufficientSignatures))
    );
    let actions =
        Processor::process_release(&program(), &accounts, &env(NOW + 3600), &targets).unwrap();
    assert_eq!(stored(&actions).state, EscrowState::Completed);
    // Buyer and moderator together do not replace the seller after expiry.
    let by_others = sign_as(escrow_key, &sign_as(escrow_key, &escrow, key(1)), key(3));
    let accounts = release_accounts(escrow_key, &by_others, &[key(2)]);
    assert!(Processor::process_release(&program(), &accounts, &env(NOW + 3599), &targets).is_ok());
    assert_eq!(
        Processor::process_release(&program(), &accounts, &env(NOW + 3600), &targets),
        Err(ProgramError::from(EscrowError::InsufficientSignatures))
    );
}

#[test]
fn release_above_the_balance_fails_before_the_signatures_are_counted() {
    let (escrow_key, escrow) = funded(0);
    let targets = vec![
        PaymentTarget { recipient: key(21), amount: 600 },
        PaymentTarget { recipient: key(22), amount: 600 },
    ];
    let accounts = release_accounts(escrow_key, &escrow, &[key(21), key(22)]);
    assert_eq!(
        Processor::process_release(&program(), &accounts, &env(NOW), &targets),
        Err(ProgramError::from(EscrowError::PaymentAmountExceedsEscrow))
    );
}

#[test]
fn release_twice_fails_as_already_completed() {
    let (escrow_key, escrow) = funded(0);
    let escrow = sign_as(escrow_key, &sign_as(escrow_key, &escrow, key(1)), key(2));
    let accounts = release_accounts(escrow_key, &escrow, &[key(21), key(22)]);
    let actions =
        Processor::process_release(&program(), &accounts, &env(NOW), &payout()).unwrap();
    let again = release_accounts(escrow_key, &stored(&actions), &[key(21), key(22)]);
    assert_eq!(
        Processor::process_release(&program(), &again, &env(NOW), &payout()),
        Err(ProgramError::from(EscrowError::AlreadyCompleted))
    );
}

#[test]
fn release_refusals() {
    let (escrow_key, escrow) = funded(0);
    let escrow = sign_as(escrow_key, &sign_as(escrow_key, &escrow, key(1)), key(2));
    let good = release_accounts(escrow_key, &escrow, &[key(21), key(22)]);
    let run = |accounts: &[AccountView], targets: &[PaymentTarget]| {
        Processor::process_release(&program(), accounts, &env(NOW), targets)
    };
    let five = vec![PaymentTarget { recipient: key(21), amount: 1 }; 5];
    assert_eq!(run(&good, &five), Err(ProgramError::InvalidArgument));
    assert_eq!(run(&good[..2], &payout()), Err(ProgramError::NotEnoughAccountKeys));
    let mut wrong_clock = good.clone();
    wrong_clock[2] = fixed(RENT_SYSVAR_ID);
    assert_eq!(run(&wrong_clock, &payout()), Err(ProgramError::InvalidArgument));
    let mut stranger = good.clone();
    stranger[0] = signer(key(3));
    assert_eq!(run(&stranger, &payout()), Err(ProgramError::InvalidAccountData));
    assert_eq!(run(&good, &[]), Err(ProgramError::from(EscrowError::EmptyPaymentTargets)));
    let zero = vec![PaymentTarget { recipient: key(21), amount: 0 }];
    assert_eq!(run(&good, &zero), Err(ProgramError::from(EscrowError::ZeroAmount)));
    let mut swapped = good.clone();
    swapped.swap(3, 4);
    assert_eq!(run(&swapped, &payout()), Err(ProgramError::InvalidAccountData));
    assert_eq!(run(&good[..4], &payout()), Err(ProgramError::NotEnoughAccountKeys));
    assert_eq!(run(&good[..5], &payout()), Err(ProgramError::NotEnoughAccountKeys));
    let mut wrong_buyer = good.clone();
    wrong_buyer[5] = account(key(2));
    assert_eq!(run(&wrong_buyer, &payout()), Err(ProgramError::InvalidAccountData));
    let mut poor = good.clone();
    poor[1].lamports = 999;
    assert_eq!(run(&poor, &payout()), Err(ProgramError::InsufficientFunds));
}

#[test]
fn release_of_tokens_transfers_and_closes() {
    let (escrow_key, escrow) = funded(0);
    let escrow = Escrow { token_type: TokenType::Spl(key(40)), ..escrow };
    let escrow = sign_as(escrow_key, &sign_as(escrow_key, &escrow, key(1)), key(2));
    let accounts = vec![
        signer(key(2)),
        holding(escrow_key, &escrow, RENT),
        fixed(CLOCK_SYSVAR_ID),
        fixed(TOKEN_PROGRAM_ID),
        account(key(60)),
        account(key(1)),
        account(key(71)),
        account(key(72)),
    ];
    let actions =
        Processor::process_release(&program(), &accounts, &env(NOW), &payout()).unwrap();
    assert_eq!(actions.len(), 4);
    assert_eq!(stored(&actions[..1]).amount, 0);
    let bump = escrow.bump_seed;
    assert_eq!(
        actions[1],
        Action::TokenTransfer {
            token_program: Address { bytes: TOKEN_PROGRAM_ID },
            source: key(60),
            destination: key(71),
            authority: escrow_key,
            amount: 600,
            authority_bump: Some(bump),
        }
    );
    assert_eq!(
        actions[3],
        Action::CloseTokenAccount {
            token_program: Address { bytes: TOKEN_PROGRAM_ID },
            account: key(60),
            destination: key(1),
            authority: escrow_key,
            bump_seed: bump,
        }
    );
    assert_eq!(
        Processor::process_release(&program(), &accounts[..7], &env(NOW), &payout()),
        Err(ProgramError::NotEnoughAccountKeys)
    );
}

#[test]
fn process_decodes_and_dispatches() {
    let (escrow_key, escrow) = opened(0);
    let accounts =
        vec![signer(key(1)), holding(escrow_key, &escrow, RENT), fixed(SYSTEM_PROGRAM_ID)];
    let data = (EscrowInstruction::Deposit { amount: 1000 }).try_to_vec();
    assert_eq!(
        Processor::process(&program(), &accounts, &env(NOW), &data),
        Processor::process_deposit(&accounts, 1000)
    );
    assert_eq!(
        Processor::process(&program(), &accounts, &env(NOW), &[2]),
        Processor::process_sign(&accounts)
    );
    assert_eq!(
        Processor::process(&program(), &accounts, &env(NOW), &[9, 9]),
        Err(ProgramError::Custom(0))
    );
    let release = (EscrowInstruction::Release { payment_targets: payout() }).try_to_vec();
    assert_eq!(
        Processor::process(&program(), &accounts, &env(NOW), &release),
        Processor::process_release(&program(), &accounts, &env(NOW), &payout())
    );
    let init = (EscrowInstruction::Initialize {
        moderator: Some(key(3)),
        unique_id: [9u8; 20],
        required_signatures: 2,
        unlock_hours: 0,
        token_type: TokenType::Sol,
    })
    .try_to_vec();
    let init_accounts = initialize_accounts(escrow_address(Some(&key(3))));
    assert_eq!(
        stored(&Processor::process(&program(), &init_accounts, &env(NOW), &init).unwrap()),
        escrow
    );
}

#[test]
fn helpers_of_the_processor() {
    assert_eq!(amounts_of(&payout()), vec![600, 400]);
    let seeds = make_escrow_seeds(&key(1), &key(2), &None, &[9u8; 20]);
    assert_eq!(seeds, vec![b"escrow".to_vec(), vec![1u8; 32], vec![2u8; 32], vec![], vec![9u8; 20]]);
    let (_, escrow) = opened(0);
    let mut data = vec![0u8; 256];
    escrow.pack_into_slice(&mut data);
    assert_eq!(load_escrow(&data), Ok(escrow));
    assert_eq!(load_escrow(&[1, 2, 3]), Err(ProgramError::InvalidAccountData));
}

#[test]
fn initialize_with_a_given_derivation() {
    let accounts = initialize_accounts(key(50));
    let run = |derived: Option<(Address, u8)>| {
        Processor::initialize_with(
            &accounts,
            &env(NOW),
            None,
            [9u8; 20],
            1,
            0,
            TokenType::Sol,
            derived,
        )
    };
    assert_eq!(run(None), Err(ProgramError::InvalidSeeds));
    assert_eq!(run(Some((key(51), 7))), Err(ProgramError::InvalidSeeds));
    let actions = run(Some((key(50), 7))).unwrap();
    assert_eq!(
        actions[0],
        Action::CreateAccount {
            payer: key(1),
            account: key(50),
            lamports: RENT,
            space: 256,
            bump_seed: 7
        }
    );
    assert_eq!(stored(&actions).bump_seed, 7);
    assert_eq!(stored(&actions).state, EscrowState::Active);
    assert_eq!(stored(&actions).amount, 0);
}

#[test]
fn release_tokens_with_a_given_derivation() {
    let (escrow_key, escrow) = funded(0);
    let escrow = Escrow { token_type: TokenType::Spl(key(40)), ..escrow };
    let accounts = vec![
        signer(key(2)),
        holding(escrow_key, &escrow, RENT),
        fixed(CLOCK_SYSVAR_ID),
        fixed(TOKEN_PROGRAM_ID),
        account(key(60)),
        account(key(1)),
        account(key(71)),
    ];
    let targets = vec![PaymentTarget { recipient: key(21), amount: 1000 }];
    assert_eq!(
        Processor::release_tokens(&accounts, &escrow, &targets, None),
        Err(ProgramError::InvalidSeeds)
    );
    assert_eq!(
        Processor::release_tokens(&accounts[..5], &escrow, &targets, Some((escrow_key, 9))),
        Err(ProgramError::NotEnoughAccountKeys)
    );
    let mut wrong_buyer = accounts.clone();
    wrong_buyer[5] = account(key(2));
    assert_eq!(
        Processor::release_tokens(&wrong_buyer, &escrow, &targets, Some((escrow_key, 9))),
        Err(ProgramError::InvalidAccountData)
    );
    assert_eq!(
        Processor::release_tokens(&accounts, &escrow, &targets, Some((escrow_key, 9))),
        Ok(vec![
            Action::Store {
                account: escrow_key,
                escrow: Escrow { state: EscrowState::Completed, amount: 0, ..escrow }
            },
            Action::TokenTransfer {
                token_program: Address { bytes: TOKEN_PROGRAM_ID },
                source: key(60),
                destination: key(71),
                authority: escrow_key,
                amount: 1000,
                authority_bump: Some(9),
            },
            Action::CloseTokenAccount {
                token_program: Address { bytes: TOKEN_PROGRAM_ID },
                account: key(60),
                destination: key(1),
                authority: escrow_key,
                bump_seed: 9,
            },
        ])
    );
}
