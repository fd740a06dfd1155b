use fundraiser_pinocchio::consts::{MAX_CONTRIBUTION_PERCENTAGE, PERCENTAGE_SCALER, SECONDS_TO_DAYS};
use fundraiser_pinocchio::error::{FundraiserError, ProcessError};
use fundraiser_pinocchio::instruction::contribute::ContributeInstructionData;
use fundraiser_pinocchio::instruction::initialize::InitializeInstructionData;
use fundraiser_pinocchio::state::{
    load_acc, load_acc_mut, load_acc_mut_unchecked, load_acc_unchecked, load_ix_data, to_bytes,
    ByteLayout, Contribute, DataLEN, Fundraiser, Initialized,
};
use fundraiser_pinocchio::{check_id, id, ID};

fn sample_fundraiser() -> Fundraiser {
    Fundraiser {
        is_initialized: true,
        maker: [0x01; 32],
        mint_to_raise: [0x02; 32],
        amount_to_raise: 100_000_000,
        current_amount: 1_234,
        time_started: -5,
        duration: 7,
        bump: 255,
    }
}

#[test]
fn data_lengths() {
    assert_eq!(Contribute::LEN, 16);
    assert_eq!(Fundraiser::LEN, 104);
    assert_eq!(InitializeInstructionData::LEN, 10);
    assert_eq!(ContributeInstructionData::LEN, 10);
}

#[test]
fn constants() {
    assert_eq!(MAX_CONTRIBUTION_PERCENTAGE, 10);
    assert_eq!(PERCENTAGE_SCALER, 100);
    assert_eq!(SECONDS_TO_DAYS, 86_400);
}

#[test]
fn program_id_matches_base58() {
    let expected = pinocchio_pubkey::from_str("7KuDrDJsLa2iKcUovWs7DFNYRdYJ12MyKyaJwnqmhSxy");
    assert_eq!(ID, expected);
    assert_eq!(id(), expected);
    assert!(check_id(&expected));
    assert!(!check_id(&[0u8; 32]));
}

#[test]
fn contribute_layout() {
    let c = Contribute { is_initialized: true, amount: 0x0102_0304_0506_0708 };
    let bytes = to_bytes(&c);
    assert_eq!(bytes, vec![1, 0, 0, 0, 0, 0, 0, 0, 8, 7, 6, 5, 4, 3, 2, 1]);
    assert_eq!(Contribute::decode(&bytes), c);
}

#[test]
fn contribute_write_keeps_padding() {
    let mut bytes = vec![0u8, 9, 9, 9, 9, 9, 9, 9, 0, 0, 0, 0, 0, 0, 0, 0];
    let c = Contribute { is_initialized: true, amount: 300 };
    c.write_to(&mut bytes);
    assert_eq!(bytes, vec![1, 9, 9, 9, 9, 9, 9, 9, 44, 1, 0, 0, 0, 0, 0, 0]);
}

#[test]
fn contribute_initialize_sets_flag_and_amount() {
    let mut c = Contribute::default();
    assert!(!c.is_initialized());
    assert_eq!(c.amount, 0);
    c.initialize(42);
    assert!(c.is_initialized());
    assert_eq!(c.amount, 42);
    assert_eq!(Contribute::SEED, "contribute");
}

#[test]
fn fundraiser_layout_roundtrip() {
    let f = sample_fundraiser();
    let bytes = to_bytes(&f);
    assert_eq!(bytes.len(), 104);
    assert_eq!(bytes[0], 1);
    assert_eq!(&bytes[1..33], &[0x01; 32]);
    assert_eq!(&bytes[33..65], &[0x02; 32]);
    assert_eq!(&bytes[72..80], &100_000_000u64.to_le_bytes());
    assert_eq!(&bytes[80..88], &1_234u64.to_le_bytes());
    assert_eq!(&bytes[88..96], &(-5i64).to_le_bytes());
    assert_eq!(bytes[96], 7);
    assert_eq!(bytes[97], 255);
    assert_eq!(Fundraiser::decode(&bytes), f);
    assert_eq!(Fundraiser::SEED, "fundraiser");
}

#[test]
fn fundraiser_initialize_and_default() {
    let mut f = Fundraiser::default();
    assert!(!f.is_initialized());
    f.initialize([3; 32], [4; 32], 500, 30, 7, 1_700_000_000);
    assert!(f.is_initialized());
    assert_eq!(f.maker, [3; 32]);
    assert_eq!(f.mint_to_raise, [4; 32]);
    assert_eq!(f.amount_to_raise, 500);
    assert_eq!(f.current_amount, 0);
    assert_eq!(f.duration, 30);
    assert_eq!(f.bump, 7);
    assert_eq!(f.time_started, 1_700_000_000);
}

#[test]
fn load_acc_checks_length_and_flag() {
    let f = sample_fundraiser();
    let bytes = to_bytes(&f);
    assert_eq!(load_acc::<Fundraiser>(&bytes), Ok(f));
    assert_eq!(load_acc_mut::<Fundraiser>(&bytes), Ok(f));
    assert_eq!(load_acc::<Fundraiser>(&bytes[..103]), Err(ProcessError::InvalidAccountData));
    let mut uninit = bytes.clone();
    uninit[0] = 0;
    assert_eq!(load_acc::<Fundraiser>(&uninit), Err(ProcessError::UninitializedAccount));
    assert_eq!(load_acc_mut::<Fundraiser>(&uninit), Err(ProcessError::UninitializedAccount));
    let mut loose = f;
    loose.is_initialized = false;
    assert_eq!(load_acc_unchecked::<Fundraiser>(&uninit), Ok(loose));
    assert_eq!(load_acc_mut_unchecked::<Fundraiser>(&uninit), Ok(loose));
    assert_eq!(load_acc_unchecked::<Contribute>(&[0u8; 15]), Err(ProcessError::InvalidAccountData));
    assert_eq!(
        load_acc_mut_unchecked::<Contribute>(&[0u8; 17]),
        Err(ProcessError::InvalidAccountData)
    );
}

#[test]
fn load_ix_data_reads_initialize_data() {
    let mut data = 100_000_000u64.to_le_bytes().to_vec();
    data.push(30);
    data.push(1);
    let ix = load_ix_data::<InitializeInstructionData>(&data).unwrap();
    assert_eq!(ix, InitializeInstructionData { amount: 100_000_000, duration: 30, bump: 1 });
    assert_eq!(to_bytes(&ix), data);
    assert_eq!(
        load_ix_data::<InitializeInstructionData>(&data[..9]),
        Err(ProcessError::InvalidInstructionData)
    );
}

#[test]
fn load_ix_data_reads_contribute_data() {
    let mut data = 1_000_000u64.to_le_bytes().to_vec();
    data.push(255);
    data.push(254);
    let ix = load_ix_data::<ContributeInstructionData>(&data).unwrap();
    assert_eq!(
        ix,
        ContributeInstructionData { amount: 1_000_000, fundraiser_bump: 255, contributor_bump: 254 }
    );
    assert_eq!(to_bytes(&ix), data);
    data.push(0);
    assert_eq!(
        load_ix_data::<ContributeInstructionData>(&data),
        Err(ProcessError::InvalidInstructionData)
    );
}

#[test]
fn error_codes() {
    assert_eq!(FundraiserError::TargetNotMet.code(), 0);
    assert_eq!(FundraiserError::TargetMet.code(), 1);
    assert_eq!(FundraiserError::ContributionTooBig.code(), 2);
    assert_eq!(FundraiserError::ContributionTooSmall.code(), 3);
    assert_eq!(FundraiserError::MaximumContributionsReached.code(), 4);
    assert_eq!(FundraiserError::FundraiserNotEnded.code(), 5);
    assert_eq!(FundraiserError::FundraiserEnded.code(), 6);
    assert_eq!(FundraiserError::InvalidAmount.code(), 7);
}
