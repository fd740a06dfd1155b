use fundraiser_pinocchio::account::{AccountSnapshot, Effect, MintView, TokenAccountView};
use fundraiser_pinocchio::instruction::contribute::{
    contribute_apply, contribute_begin, contribute_load, contribute_owners_ok,
    contribution_in_range,
};
use fundraiser_pinocchio::instruction::initialize::{
    initialize_begin, initialize_finish, initialize_vault_ok,
};
use fundraiser_pinocchio::instruction::{decode_instruction, FundraiserInsruction};
use fundraiser_pinocchio::state::{load_acc, to_bytes, Contribute, Fundraiser};
use fundraiser_pinocchio::ID;
use pinocchio::program_error::INVALID_ACCOUNT_DATA;

const LAMPORTS_PER_SOL: u64 = 1_000_000_000;
const NOW: i64 = 1_700_000_000;

fn wallet(key: [u8; 32], is_signer: bool, lamports: u64) -> AccountSnapshot {
    AccountSnapshot {
        key,
        owner: [0u8; 32],
        is_signer,
        lamports,
        data: vec![],
        token_account: Err(INVALID_ACCOUNT_DATA),
        mint: Err(INVALID_ACCOUNT_DATA),
    }
}

fn mint_account(key: [u8; 32], decimals: u8) -> AccountSnapshot {
    let mut a = wallet(key, false, 1_461_600);
    a.data = vec![0u8; 82];
    a.mint = Ok(MintView { decimals });
    a
}

fn token_account(key: [u8; 32], mint: [u8; 32], owner: [u8; 32], amount: u64) -> AccountSnapshot {
    let mut a = wallet(key, false, 2_039_280);
    a.data = vec![0u8; 165];
    a.token_account = Ok(TokenAccountView { mint, owner, amount });
    a
}

#[test]
fn initialize() {
    let maker = [0x01; 32];
    let fundraiser = [0x0a; 32];
    let mint_to_raise = [0x2; 32];
    let vault = [0x3; 32];
    let accounts = |fundraiser_data: Vec<u8>| {
        let mut fundraiser_acc = wallet(fundraiser, false, 0);
        fundraiser_acc.data = fundraiser_data;
        vec![
            wallet(maker, true, 1 * LAMPORTS_PER_SOL),
            mint_account(mint_to_raise, 6),
            fundraiser_acc,
            token_account(vault, mint_to_raise, fundraiser, 0),
            wallet([0u8; 32], false, 1),
            wallet([0x06; 32], false, 1),
        ]
    };
    let ix_data = [vec![0], 100_000_000u64.to_le_bytes().to_vec(), vec![30], vec![1]].concat();
    let (ix, rest) = decode_instruction(&ix_data).unwrap();
    assert_eq!(ix, FundraiserInsruction::Initialize);
    let before = accounts(vec![]);
    assert!(initialize_vault_ok(&before));
    let plan = initialize_begin(&before, rest, Ok(1_614_720)).unwrap();
    let after = accounts(vec![0u8; 104]);
    assert!(initialize_finish(&after, &plan, Ok(NOW)).is_ok());
}

#[test]
fn contribute_test() {
    let contributor = [0x01; 32];
    let mint = [0x02; 32];
    let fundraiser = [0x03; 32];
    let contributor_acc = [0x0b; 32];
    let contributor_ata = [0x0c; 32];
    let vault = [0x0d; 32];
    let fundraiser_state = Fundraiser {
        is_initialized: true,
        maker: contributor,
        mint_to_raise: mint,
        amount_to_raise: 100_000_000,
        current_amount: 0,
        time_started: NOW,
        duration: 7,
        bump: 255,
    };
    let accounts = |record_data: Vec<u8>| {
        let mut fundraiser_acc = wallet(fundraiser, false, 1_614_720);
        fundraiser_acc.owner = ID;
        fundraiser_acc.data = to_bytes(&fundraiser_state);
        let mut record = wallet(contributor_acc, false, 0);
        if !record_data.is_empty() {
            record.owner = ID;
        }
        record.data = record_data;
        vec![
            wallet(contributor, true, 1 * LAMPORTS_PER_SOL),
            mint_account(mint, 6),
            fundraiser_acc,
            record,
            token_account(contributor_ata, mint, contributor, 100_000_000),
            token_account(vault, mint, fundraiser, 0),
            wallet([0x06; 32], false, 1),
            wallet([0u8; 32], false, 1),
        ]
    };
    let data = [vec![1], 1_000_000u64.to_le_bytes().to_vec(), vec![255], vec![255]].concat();
    let (ix, rest) = decode_instruction(&data).unwrap();
    assert_eq!(ix, FundraiserInsruction::Contribute);
    let before = accounts(vec![]);
    assert!(contribute_owners_ok(&before));
    let plan = contribute_begin(&before, rest, Ok(1_002_240)).unwrap();
    assert!(plan.create.is_some());
    let after = accounts(vec![0u8; 16]);
    let (f, c, decimals, record) = contribute_load(&after, &plan).unwrap();
    assert!(contribution_in_range(&f, &c, plan.ix.amount, Ok(NOW)));
    let effects = contribute_apply(&after, &plan, f, c, decimals, record, Ok(NOW)).unwrap();
    assert_eq!(
        effects[0],
        Effect::TransferChecked {
            from: 4,
            to: 5,
            authority: 0,
            mint: 1,
            amount: 1_000_000,
            decimals: 6,
            seeds: vec![],
        }
    );
    assert_eq!(effects.len(), 3);
    match (&effects[1], &effects[2]) {
        (Effect::WriteData { account: 3, data: record }, Effect::WriteData { account: 2, data: f }) => {
            assert_eq!(
                load_acc::<Contribute>(record),
                Ok(Contribute { is_initialized: true, amount: 1_000_000 })
            );
            assert_eq!(load_acc::<Fundraiser>(f).unwrap().current_amount, 1_000_000);
        }
        other => panic!("unexpected effects {:?}", other),
    }
}
