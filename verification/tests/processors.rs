use fundraiser_pinocchio::account::{AccountSnapshot, Effect, MintView, TokenAccountView};
use fundraiser_pinocchio::error::{FundraiserError, ProcessError};
use fundraiser_pinocchio::instruction::check::process_check;
use fundraiser_pinocchio::instruction::contribute::{
    contribute_apply, contribute_begin, contribute_load, contribute_owners_ok,
    contribution_in_range, ContributePlan,
};
use fundraiser_pinocchio::instruction::initialize::{
    initialize_begin, initialize_finish, initialize_vault_ok,
};
use fundraiser_pinocchio::instruction::refund::{process_refund, refund_vault_ok};
use fundraiser_pinocchio::instruction::{contributor_signer_seeds, fundraiser_signer_seeds};
use fundraiser_pinocchio::state::{load_acc, to_bytes, Contribute, Fundraiser};
use fundraiser_pinocchio::ID;
use pinocchio::program_error::{INVALID_ACCOUNT_DATA, INVALID_ACCOUNT_OWNER, UNSUPPORTED_SYSVAR};

const DAY: i64 = 86_400;
const START: i64 = 1_700_000_000;
const TOKEN_PROGRAM: [u8; 32] = [0x06; 32];

fn plain(key: [u8; 32], is_signer: bool, data: Vec<u8>) -> AccountSnapshot {
    AccountSnapshot {
        key,
        owner: [0u8; 32],
        is_signer,
        lamports: 1_000_000_000,
        data,
        token_account: Err(INVALID_ACCOUNT_DATA),
        mint: Err(INVALID_ACCOUNT_DATA),
    }
}

fn owned(key: [u8; 32], data: Vec<u8>) -> AccountSnapshot {
    let mut a = plain(key, false, data);
    a.owner = ID;
    a
}

fn token(key: [u8; 32], mint: [u8; 32], owner: [u8; 32], amount: u64) -> AccountSnapshot {
    let mut a = plain(key, false, vec![0u8; 165]);
    a.owner = TOKEN_PROGRAM;
    a.token_account = Ok(TokenAccountView { mint, owner, amount });
    a
}

fn mint(key: [u8; 32], decimals: u8) -> AccountSnapshot {
    let mut a = plain(key, false, vec![0u8; 82]);
    a.owner = TOKEN_PROGRAM;
    a.mint = Ok(MintView { decimals });
    a
}

fn ix_bytes(amount: u64, a: u8, b: u8) -> Vec<u8> {
    let mut d = amount.to_le_bytes().to_vec();
    d.push(a);
    d.push(b);
    d
}

const MAKER: [u8; 32] = [0x01; 32];
const MINT: [u8; 32] = [0x02; 32];
const FUNDRAISER: [u8; 32] = [0x03; 32];
const VAULT: [u8; 32] = [0x04; 32];
const CONTRIBUTOR: [u8; 32] = [0x05; 32];
const RECORD: [u8; 32] = [0x07; 32];
const CONTRIBUTOR_ATA: [u8; 32] = [0x08; 32];
const MAKER_ATA: [u8; 32] = [0x09; 32];

fn fundraiser_state(current_amount: u64) -> Fundraiser {
    Fundraiser {
        is_initialized: true,
        maker: MAKER,
        mint_to_raise: MINT,
        amount_to_raise: 100_000_000,
        current_amount,
        time_started: START,
        duration: 7,
        bump: 255,
    }
}

fn initialize_accounts(fundraiser_data: Vec<u8>) -> Vec<AccountSnapshot> {
    vec![
        plain(MAKER, true, vec![]),
        mint(MINT, 6),
        plain(FUNDRAISER, false, fundraiser_data),
        token(VAULT, MINT, FUNDRAISER, 0),
        plain([0u8; 32], false, vec![]),
        plain(TOKEN_PROGRAM, false, vec![]),
    ]
}

#[test]
fn initialize_opens_a_fundraiser() {
    let accounts = initialize_accounts(vec![]);
    assert!(initialize_vault_ok(&accounts));
    let data = ix_bytes(100_000_000, 30, 1);
    let plan = initialize_begin(&accounts, &data, Ok(1_614_720)).unwrap();
    assert_eq!(plan.ix.amount, 100_000_000);
    assert_eq!(plan.ix.duration, 30);
    assert_eq!(plan.ix.bump, 1);
    assert_eq!(
        plan.create,
        Effect::CreateAccount {
            from: 0,
            to: 2,
            lamports: 1_614_720,
            space: 104,
            owner: ID,
            seeds: fundraiser_signer_seeds(&MAKER, 1),
        }
    );
    // the runtime created the account with 104 zero bytes
    let created = initialize_accounts(vec![0u8; 104]);
    let effects = initialize_finish(&created, &plan, Ok(START)).unwrap();
    assert_eq!(effects.len(), 1);
    match &effects[0] {
        Effect::WriteData { account, data } => {
            assert_eq!(*account, 2);
            let f = load_acc::<Fundraiser>(data).unwrap();
            assert_eq!(
                f,
                Fundraiser {
                    is_initialized: true,
                    maker: MAKER,
                    mint_to_raise: MINT,
                    amount_to_raise: 100_000_000,
                    current_amount: 0,
                    time_started: START,
                    duration: 30,
                    bump: 1,
                }
            );
        }
        other => panic!("unexpected effect {:?}", other),
    }
}

#[test]
fn initialize_refusals() {
    let data = ix_bytes(5, 1, 1);
    let accounts = initialize_accounts(vec![]);
    assert_eq!(
        initialize_begin(&accounts[..5], &data, Ok(1)).unwrap_err(),
        ProcessError::InvalidAccountData
    );
    let mut unsigned = initialize_accounts(vec![]);
    unsigned[0].is_signer = false;
    assert_eq!(
        initialize_begin(&unsigned, &data, Ok(1)).unwrap_err(),
        ProcessError::MissingRequiredSignature
    );
    let used = initialize_accounts(vec![0u8; 104]);
    assert_eq!(
        initialize_begin(&used, &data, Ok(1)).unwrap_err(),
        ProcessError::AccountAlreadyInitialized
    );
    let mut bad_vault = initialize_accounts(vec![]);
    bad_vault[3].token_account = Err(INVALID_ACCOUNT_OWNER);
    assert_eq!(
        initialize_begin(&bad_vault, &data, Ok(1)).unwrap_err(),
        ProcessError::Runtime(INVALID_ACCOUNT_OWNER)
    );
    assert_eq!(
        initialize_begin(&accounts, &data, Err(UNSUPPORTED_SYSVAR)).unwrap_err(),
        ProcessError::Runtime(UNSUPPORTED_SYSVAR)
    );
    assert_eq!(
        initialize_begin(&accounts, &data[..9], Ok(1)).unwrap_err(),
        ProcessError::InvalidInstructionData
    );
    let plan = initialize_begin(&accounts, &data, Ok(1)).unwrap();
    let wrong_size = initialize_accounts(vec![0u8; 100]);
    assert_eq!(
        initialize_finish(&wrong_size, &plan, Ok(START)).unwrap_err(),
        ProcessError::InvalidAccountData
    );
    let created = initialize_accounts(vec![0u8; 104]);
    assert_eq!(
        initialize_finish(&created, &plan, Err(UNSUPPORTED_SYSVAR)).unwrap_err(),
        ProcessError::Runtime(UNSUPPORTED_SYSVAR)
    );
}

#[test]
fn initialize_vault_must_belong_to_fundraiser() {
    let mut accounts = initialize_accounts(vec![]);
    accounts[3].token_account = Ok(TokenAccountView { mint: MINT, owner: MAKER, amount: 0 });
    assert!(!initialize_vault_ok(&accounts));
}

fn contribute_accounts(fundraiser: &Fundraiser, record_data: Vec<u8>, record_owned: bool) -> Vec<AccountSnapshot> {
    let record = if record_owned { owned(RECORD, record_data) } else { plain(RECORD, false, record_data) };
    vec![
        plain(CONTRIBUTOR, true, vec![]),
        mint(MINT, 6),
        owned(FUNDRAISER, to_bytes(fundraiser)),
        record,
        token(CONTRIBUTOR_ATA, MINT, CONTRIBUTOR, 100_000_000),
        token(VAULT, MINT, FUNDRAISER, 0),
        plain(TOKEN_PROGRAM, false, vec![]),
        plain([0u8; 32], false, vec![]),
    ]
}

fn run_contribute(
    accounts_before: &[AccountSnapshot],
    accounts_after: &[AccountSnapshot],
    data: &[u8],
    now: i64,
) -> (ContributePlan, Result<Vec<Effect>, ProcessError>) {
    assert!(contribute_owners_ok(accounts_before));
    let plan = contribute_begin(accounts_before, data, Ok(1_002_240)).unwrap();
    let result = contribute_load(accounts_after, &plan).and_then(|(f, c, decimals, record)| {
        assert!(contribution_in_range(&f, &c, plan.ix.amount, Ok(now)));
        contribute_apply(accounts_after, &plan, f, c, decimals, record, Ok(now))
    });
    (plan, result)
}

#[test]
fn contribute_with_a_new_record() {
    let f = fundraiser_state(0);
    let before = contribute_accounts(&f, vec![], false);
    let after = contribute_accounts(&f, vec![0u8; 16], true);
    let data = ix_bytes(1_000_000, 255, 255);
    let (plan, result) = run_contribute(&before, &after, &data, START + DAY);
    assert_eq!(
        plan.create,
        Some(Effect::CreateAccount {
            from: 0,
            to: 3,
            lamports: 1_002_240,
            space: 16,
            owner: ID,
            seeds: contributor_signer_seeds(&FUNDRAISER, &CONTRIBUTOR, 255),
        })
    );
    let effects = result.unwrap();
    assert_eq!(effects.len(), 3);
    assert_eq!(
        effects[0],
        Effect::TransferChecked {
            from: 4,
            to: 5,
            authority: 0,
            mint: 1,
            amount: 1_000_000,
            decimals: 6,
            seeds: vec![],
        }
    );
    // a new record counts the first contribution once
    match &effects[1] {
        Effect::WriteData { account: 3, data } => {
            assert_eq!(
                load_acc::<Contribute>(data),
                Ok(Contribute { is_initialized: true, amount: 1_000_000 })
            );
        }
        other => panic!("unexpected effect {:?}", other),
    }
    match &effects[2] {
        Effect::WriteData { account: 2, data } => {
            assert_eq!(load_acc::<Fundraiser>(data), Ok(fundraiser_state(1_000_000)));
        }
        other => panic!("unexpected effect {:?}", other),
    }
}

#[test]
fn contribute_with_an_existing_record() {
    let f = fundraiser_state(3_000_000);
    let record = to_bytes(&Contribute { is_initialized: true, amount: 2_000_000 });
    let accounts = contribute_accounts(&f, record, true);
    let data = ix_bytes(500_000, 255, 254);
    let (plan, result) = run_contribute(&accounts, &accounts, &data, START);
    assert_eq!(plan.create, None);
    let effects = result.unwrap();
    match &effects[1] {
        Effect::WriteData { account: 3, data } => {
            assert_eq!(
                load_acc::<Contribute>(data),
                Ok(Contribute { is_initialized: true, amount: 2_500_000 })
            );
        }
        other => panic!("unexpected effect {:?}", other),
    }
    match &effects[2] {
        Effect::WriteData { account: 2, data } => {
            assert_eq!(load_acc::<Fundraiser>(data).unwrap().current_amount, 3_500_000);
        }
        other => panic!("unexpected effect {:?}", other),
    }
}

#[test]
fn contribution_above_ten_percent_is_refused() {
    let f = fundraiser_state(0);
    let record = to_bytes(&Contribute { is_initialized: true, amount: 0 });
    let accounts = contribute_accounts(&f, record, true);
    let data = ix_bytes(10_000_001, 255, 255);
    let (_, result) = run_contribute(&accounts, &accounts, &data, START);
    assert_eq!(
        result.unwrap_err(),
        ProcessError::Fundraiser(FundraiserError::ContributionTooBig)
    );
    let data = ix_bytes(10_000_000, 255, 255);
    let (_, result) = run_contribute(&accounts, &accounts, &data, START);
    assert!(result.is_ok());
}

#[test]
fn contributor_above_cap_is_refused() {
    let f = fundraiser_state(0);
    let data = ix_bytes(2, 255, 255);
    // 9_999_999 + 2 would go past the cap of 10_000_000
    let record = to_bytes(&Contribute { is_initialized: true, amount: 9_999_999 });
    let accounts = contribute_accounts(&f, record, true);
    let (_, result) = run_contribute(&accounts, &accounts, &data, START);
    assert_eq!(
        result.unwrap_err(),
        ProcessError::Fundraiser(FundraiserError::MaximumContributionsReached)
    );
    // 9_999_998 + 2 reaches the cap exactly
    let record = to_bytes(&Contribute { is_initialized: true, amount: 9_999_998 });
    let accounts = contribute_accounts(&f, record, true);
    let (_, result) = run_contribute(&accounts, &accounts, &data, START);
    assert!(result.is_ok());
    let record = to_bytes(&Contribute { is_initialized: true, amount: u64::MAX });
    let accounts = contribute_accounts(&f, record, true);
    let (_, result) = run_contribute(&accounts, &accounts, &data, START);
    assert_eq!(
        result.unwrap_err(),
        ProcessError::Fundraiser(FundraiserError::MaximumContributionsReached)
    );
}

#[test]
fn day_256_is_past_the_end() {
    let f = fundraiser_state(0);
    let record = to_bytes(&Contribute { is_initialized: true, amount: 0 });
    let accounts = contribute_accounts(&f, record, true);
    let data = ix_bytes(1_000, 255, 255);
    let (_, result) = run_contribute(&accounts, &accounts, &data, START + 256 * DAY);
    assert_eq!(result.unwrap_err(), ProcessError::Fundraiser(FundraiserError::FundraiserEnded));
    assert!(process_refund(&refund_accounts(&f, 0, 1), &[], Ok(START + 256 * DAY)).is_ok());
    // before the start, contributions are open and refunds are not
    let (_, result) = run_contribute(&accounts, &accounts, &data, START - DAY);
    assert!(result.is_ok());
    assert_eq!(
        process_refund(&refund_accounts(&f, 0, 1), &[], Ok(START - DAY)).unwrap_err(),
        ProcessError::Fundraiser(FundraiserError::FundraiserNotEnded)
    );
}

#[test]
fn contribution_after_the_end_is_refused() {
    let f = fundraiser_state(0);
    let record = to_bytes(&Contribute { is_initialized: true, amount: 0 });
    let accounts = contribute_accounts(&f, record, true);
    let data = ix_bytes(1_000, 255, 255);
    let (_, result) = run_contribute(&accounts, &accounts, &data, START + 7 * DAY + DAY - 1);
    assert!(result.is_ok());
    let (_, result) = run_contribute(&accounts, &accounts, &data, START + 8 * DAY);
    assert_eq!(result.unwrap_err(), ProcessError::Fundraiser(FundraiserError::FundraiserEnded));
}

#[test]
fn contribute_refusals_before_the_rules() {
    let f = fundraiser_state(0);
    let accounts = contribute_accounts(&f, vec![], false);
    let data = ix_bytes(1_000, 255, 255);
    assert_eq!(
        contribute_begin(&accounts[..7], &data, Ok(1)).unwrap_err(),
        ProcessError::InvalidAccountData
    );
    let mut unsigned = contribute_accounts(&f, vec![], false);
    unsigned[0].is_signer = false;
    assert_eq!(
        contribute_begin(&unsigned, &data, Ok(1)).unwrap_err(),
        ProcessError::MissingRequiredSignature
    );
    assert_eq!(
        contribute_begin(&accounts, &data[..3], Ok(1)).unwrap_err(),
        ProcessError::InvalidInstructionData
    );
    assert_eq!(
        contribute_begin(&accounts, &data, Err(UNSUPPORTED_SYSVAR)).unwrap_err(),
        ProcessError::Runtime(UNSUPPORTED_SYSVAR)
    );
    let mut bad_ata = contribute_accounts(&f, vec![], false);
    bad_ata[4].token_account = Err(INVALID_ACCOUNT_DATA);
    assert_eq!(
        contribute_begin(&bad_ata, &data, Ok(1)).unwrap_err(),
        ProcessError::Runtime(INVALID_ACCOUNT_DATA)
    );
    let mut stolen = contribute_accounts(&f, vec![], false);
    stolen[4].token_account = Ok(TokenAccountView { mint: MINT, owner: MAKER, amount: 1 });
    assert!(!contribute_owners_ok(&stolen));
    // an uninitialized fundraiser
    let mut closed = f;
    closed.is_initialized = false;
    let record = to_bytes(&Contribute { is_initialized: true, amount: 0 });
    let accounts = contribute_accounts(&closed, record, true);
    let plan = contribute_begin(&accounts, &data, Ok(1)).unwrap();
    assert_eq!(
        contribute_load(&accounts, &plan).unwrap_err(),
        ProcessError::UninitializedAccount
    );
}

#[test]
fn contribution_arithmetic_range() {
    let mut f = fundraiser_state(0);
    f.amount_to_raise = u64::MAX / 5;
    let c = Contribute { is_initialized: true, amount: 0 };
    assert!(!contribution_in_range(&f, &c, 1, Ok(START)));
    let mut f = fundraiser_state(u64::MAX);
    f.amount_to_raise = 100;
    assert!(!contribution_in_range(&f, &c, 1, Ok(START)));
    assert!(contribution_in_range(&f, &c, 11, Ok(START)));
}

fn check_accounts(fundraiser: &Fundraiser) -> Vec<AccountSnapshot> {
    vec![
        plain(MAKER, true, vec![]),
        mint(MINT, 6),
        owned(FUNDRAISER, to_bytes(fundraiser)),
        token(VAULT, MINT, FUNDRAISER, fundraiser.current_amount),
        token(MAKER_ATA, MINT, MAKER, 0),
        plain(TOKEN_PROGRAM, false, vec![]),
        plain([0u8; 32], false, vec![]),
    ]
}

#[test]
fn check_collects_a_funded_fundraiser() {
    let f = fundraiser_state(100_000_000);
    let accounts = check_accounts(&f);
    let effects = process_check(&accounts, &[]).unwrap();
    let seeds = fundraiser_signer_seeds(&MAKER, 255);
    assert_eq!(
        effects,
        vec![
            Effect::TransferChecked {
                from: 3,
                to: 4,
                authority: 2,
                mint: 1,
                amount: 100_000_000,
                decimals: 6,
                seeds: seeds.clone(),
            },
            Effect::CloseTokenAccount { account: 3, destination: 0, authority: 2, seeds },
            Effect::CloseAccount { account: 2, destination: 0 },
        ]
    );
}

#[test]
fn check_refusals() {
    let f = fundraiser_state(99_999_999);
    let accounts = check_accounts(&f);
    assert_eq!(
        process_check(&accounts, &[]).unwrap_err(),
        ProcessError::Fundraiser(FundraiserError::TargetNotMet)
    );
    assert_eq!(process_check(&accounts[..6], &[]).unwrap_err(), ProcessError::InvalidAccountData);
    let f = fundraiser_state(100_000_000);
    let mut unsigned = check_accounts(&f);
    unsigned[0].is_signer = false;
    assert_eq!(process_check(&unsigned, &[]).unwrap_err(), ProcessError::MissingRequiredSignature);
    let mut no_mint = check_accounts(&f);
    no_mint[1].mint = Err(INVALID_ACCOUNT_OWNER);
    assert_eq!(
        process_check(&no_mint, &[]).unwrap_err(),
        ProcessError::Runtime(INVALID_ACCOUNT_OWNER)
    );
    let mut garbled = check_accounts(&f);
    garbled[2].data.pop();
    assert_eq!(process_check(&garbled, &[]).unwrap_err(), ProcessError::InvalidAccountData);
}

fn refund_accounts(fundraiser: &Fundraiser, vault_amount: u64, given: u64) -> Vec<AccountSnapshot> {
    vec![
        plain(CONTRIBUTOR, true, vec![]),
        plain(MAKER, false, vec![]),
        mint(MINT, 6),
        owned(FUNDRAISER, to_bytes(fundraiser)),
        owned(RECORD, to_bytes(&Contribute { is_initialized: true, amount: given })),
        token(CONTRIBUTOR_ATA, MINT, CONTRIBUTOR, 0),
        token(VAULT, MINT, FUNDRAISER, vault_amount),
        plain(TOKEN_PROGRAM, false, vec![]),
        plain([0u8; 32], false, vec![]),
    ]
}

#[test]
fn refund_after_a_missed_target() {
    let f = fundraiser_state(40_000_000);
    let accounts = refund_accounts(&f, 40_000_000, 4_000_000);
    let now = Ok(START + 7 * DAY);
    assert!(refund_vault_ok(&accounts));
    let effects = process_refund(&accounts, &[], now).unwrap();
    assert_eq!(effects.len(), 3);
    assert_eq!(
        effects[0],
        Effect::TransferChecked {
            from: 6,
            to: 5,
            authority: 3,
            mint: 2,
            amount: 4_000_000,
            decimals: 6,
            seeds: fundraiser_signer_seeds(&MAKER, 255),
        }
    );
    match &effects[1] {
        Effect::WriteData { account: 3, data } => {
            assert_eq!(load_acc::<Fundraiser>(data), Ok(fundraiser_state(36_000_000)));
        }
        other => panic!("unexpected effect {:?}", other),
    }
    assert_eq!(effects[2], Effect::CloseAccount { account: 4, destination: 0 });
}

#[test]
fn refund_refusals() {
    let f = fundraiser_state(40_000_000);
    let accounts = refund_accounts(&f, 40_000_000, 4_000_000);
    assert_eq!(
        process_refund(&accounts, &[], Ok(START + 6 * DAY)).unwrap_err(),
        ProcessError::Fundraiser(FundraiserError::FundraiserNotEnded)
    );
    assert_eq!(
        process_refund(&accounts[..8], &[], Ok(START + 7 * DAY)).unwrap_err(),
        ProcessError::MissingRequiredSignature
    );
    assert_eq!(
        process_refund(&accounts, &[], Err(UNSUPPORTED_SYSVAR)).unwrap_err(),
        ProcessError::Runtime(UNSUPPORTED_SYSVAR)
    );
    let met = refund_accounts(&f, 100_000_000, 4_000_000);
    assert_eq!(
        process_refund(&met, &[], Ok(START + 7 * DAY)).unwrap_err(),
        ProcessError::Fundraiser(FundraiserError::TargetMet)
    );
    let mut unsigned = refund_accounts(&f, 0, 1);
    unsigned[0].is_signer = false;
    assert_eq!(
        process_refund(&unsigned, &[], Ok(START + 7 * DAY)).unwrap_err(),
        ProcessError::MissingRequiredSignature
    );
    let mut no_record = refund_accounts(&f, 0, 1);
    no_record[4].data = vec![0u8; 16];
    assert_eq!(
        process_refund(&no_record, &[], Ok(START + 7 * DAY)).unwrap_err(),
        ProcessError::UninitializedAccount
    );
    let mut foreign_vault = refund_accounts(&f, 0, 1);
    foreign_vault[6].token_account = Ok(TokenAccountView { mint: MINT, owner: MAKER, amount: 0 });
    assert!(!refund_vault_ok(&foreign_vault));
}

#[test]
fn collection_and_refund_exclude_each_other() {
    // the vault holds what the fundraiser counted: exactly one of the two is allowed
    for raised in [0u64, 99_999_999, 100_000_000, 150_000_000] {
        let f = fundraiser_state(raised);
        let checked = process_check(&check_accounts(&f), &[]).is_ok();
        let refunded = process_refund(&refund_accounts(&f, raised, 1), &[], Ok(START + 30 * DAY)).is_ok();
        assert!(checked != refunded);
    }
}

#[test]
fn last_day_allows_contributions_and_refunds() {
    let f = fundraiser_state(0);
    let record = to_bytes(&Contribute { is_initialized: true, amount: 0 });
    let accounts = contribute_accounts(&f, record, true);
    let data = ix_bytes(1_000, 255, 255);
    let last_day = START + 7 * DAY;
    let (_, result) = run_contribute(&accounts, &accounts, &data, last_day);
    assert!(result.is_ok());
    assert!(process_refund(&refund_accounts(&f, 0, 1), &[], Ok(last_day)).is_ok());
    // the day before, only contributions; the day after, only refunds
    let (_, result) = run_contribute(&accounts, &accounts, &data, last_day - DAY);
    assert!(result.is_ok());
    assert!(process_refund(&refund_accounts(&f, 0, 1), &[], Ok(last_day - DAY)).is_err());
    let (_, result) = run_contribute(&accounts, &accounts, &data, last_day + DAY);
    assert!(result.is_err());
    assert!(process_refund(&refund_accounts(&f, 0, 1), &[], Ok(last_day + DAY)).is_ok());
}

#[test]
fn opened_fundraiser_cannot_be_collected() {
    let accounts = initialize_accounts(vec![]);
    let plan = initialize_begin(&accounts, &ix_bytes(100_000_000, 7, 255), Ok(1)).unwrap();
    let effects = initialize_finish(&initialize_accounts(vec![0u8; 104]), &plan, Ok(START)).unwrap();
    let opened = match &effects[0] {
        Effect::WriteData { data, .. } => load_acc::<Fundraiser>(data).unwrap(),
        other => panic!("unexpected effect {:?}", other),
    };
    assert_eq!(opened.current_amount, 0);
    assert_eq!(
        process_check(&check_accounts(&opened), &[]).unwrap_err(),
        ProcessError::Fundraiser(FundraiserError::TargetNotMet)
    );
}

#[test]
fn contribution_then_refund_keeps_the_books() {
    // one contributor gives 4_000_000 to an empty fundraiser
    let f = fundraiser_state(0);
    let before = contribute_accounts(&f, vec![], false);
    let after = contribute_accounts(&f, vec![0u8; 16], true);
    let (_, result) = run_contribute(&before, &after, &ix_bytes(4_000_000, 255, 255), START);
    let effects = result.unwrap();
    let (f1, given) = match (&effects[1], &effects[2]) {
        (Effect::WriteData { data: record, .. }, Effect::WriteData { data: fundraiser, .. }) => (
            load_acc::<Fundraiser>(fundraiser).unwrap(),
            load_acc::<Contribute>(record).unwrap().amount,
        ),
        other => panic!("unexpected effects {:?}", other),
    };
    assert_eq!(f1.current_amount, 4_000_000);
    assert_eq!(given, 4_000_000);
    // after the end, the refund gives back exactly that and the count returns to zero
    let refund = process_refund(&refund_accounts(&f1, 4_000_000, given), &[], Ok(START + 7 * DAY)).unwrap();
    assert!(matches!(refund[0], Effect::TransferChecked { amount: 4_000_000, .. }));
    match &refund[1] {
        Effect::WriteData { account: 3, data } => {
            assert_eq!(load_acc::<Fundraiser>(data).unwrap().current_amount, 0);
        }
        other => panic!("unexpected effect {:?}", other),
    }
}

#[test]
fn refund_of_more_than_counted_stops_at_zero() {
    let f = fundraiser_state(3);
    let effects = process_refund(&refund_accounts(&f, 3, 5), &[], Ok(START + 7 * DAY)).unwrap();
    match &effects[1] {
        Effect::WriteData { account: 3, data } => {
            assert_eq!(load_acc::<Fundraiser>(data).unwrap().current_amount, 0);
        }
        other => panic!("unexpected effect {:?}", other),
    }
}
