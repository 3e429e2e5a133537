use amm_core::state::{AmmState, Config};
use amm_core::{Account, Address, AmmError};

fn address(fill: u8) -> Address {
    Address::new_from_array([fill; 32])
}

fn sample() -> Config {
    let mut config = Config::zeroed();
    config.set_inner(0x0102_0304_0506_0708, address(9), address(1), address(2), 30, [254]).unwrap();
    config
}

fn sample_bytes() -> Vec<u8> {
    let mut bytes: Vec<u8> = vec![1];
    bytes.extend_from_slice(&[8, 7, 6, 5, 4, 3, 2, 1]);
    bytes.extend_from_slice(&[9; 32]);
    bytes.extend_from_slice(&[1; 32]);
    bytes.extend_from_slice(&[2; 32]);
    bytes.extend_from_slice(&[30, 0]);
    bytes.push(254);
    bytes
}

fn config_account(data: Vec<u8>, owner: Address) -> Account {
    Account { address: address(0x55), owner, is_signer: false, data }
}

#[test]
fn record_length() {
    assert_eq!(Config::LEN, 108);
    assert_eq!(sample().to_bytes().len(), 108);
}

#[test]
fn state_codes() {
    assert_eq!(AmmState::Uninitialized.as_u8(), 0);
    assert_eq!(AmmState::Initialized.as_u8(), 1);
    assert_eq!(AmmState::Disabled.as_u8(), 2);
    assert_eq!(AmmState::WithdrawOnly.as_u8(), 3);
    assert_eq!(AmmState::from_u8(3), Some(AmmState::WithdrawOnly));
    assert_eq!(AmmState::from_u8(4), None);
}

#[test]
fn record_layout_is_exact() {
    assert_eq!(sample().to_bytes(), sample_bytes());
}

#[test]
fn record_reads_back() {
    let config = Config::from_bytes_unchecked(&sample_bytes());
    assert_eq!(config, sample());
    assert_eq!(config.state(), 1);
    assert_eq!(config.seed(), 0x0102_0304_0506_0708);
    assert_eq!(*config.authority(), address(9));
    assert_eq!(*config.mint_x(), address(1));
    assert_eq!(*config.mint_y(), address(2));
    assert_eq!(config.fee(), 30);
    assert_eq!(config.config_bump(), [254]);
}

#[test]
fn record_reads_only_its_own_bytes() {
    let mut bytes = sample_bytes();
    bytes.extend_from_slice(&[0xee; 10]);
    assert_eq!(Config::from_bytes_unchecked(&bytes), sample());
}

#[test]
fn set_fee_bound() {
    let mut config = sample();
    assert_eq!(config.set_fee(9_999), Ok(()));
    assert_eq!(config.fee(), 9_999);
    assert_eq!(config.set_fee(10_000), Err(AmmError::InvalidArgument));
    assert_eq!(config.fee(), 9_999);
    assert_eq!(config.set_fee(u16::MAX), Err(AmmError::InvalidArgument));
    assert_eq!(config.set_fee(0), Ok(()));
    assert_eq!(config.fee(), 0);
}

#[test]
fn set_state_never_reaches_withdraw_only() {
    let mut config = sample();
    assert_eq!(config.set_state(AmmState::Disabled.as_u8()), Ok(()));
    assert_eq!(config.state(), 2);
    assert_eq!(config.set_state(AmmState::WithdrawOnly.as_u8()), Err(AmmError::InvalidArgument));
    assert_eq!(config.state(), 2);
    assert_eq!(config.set_state(200), Err(AmmError::InvalidArgument));
    assert_eq!(config.set_state(0), Ok(()));
    assert_eq!(config.state(), 0);
}

#[test]
fn plain_setters() {
    let mut config = Config::zeroed();
    config.set_seed(77);
    config.set_authority(address(3));
    config.set_mint_x(address(4));
    config.set_mint_y(address(5));
    config.set_config_bump([6]);
    assert_eq!(config.seed(), 77);
    assert_eq!(*config.authority(), address(3));
    assert_eq!(*config.mint_x(), address(4));
    assert_eq!(*config.mint_y(), address(5));
    assert_eq!(config.config_bump(), [6]);
    assert_eq!(config.state(), 0);
    assert_eq!(config.fee(), 0);
}

#[test]
fn set_inner_marks_initialized() {
    let config = sample();
    assert_eq!(config.state(), AmmState::Initialized.as_u8());
}

#[test]
fn set_inner_with_bad_fee_stops_at_the_fee() {
    let mut config = Config::zeroed();
    config.set_fee(5).unwrap();
    config.set_config_bump([17]);
    let r = config.set_inner(42, address(9), address(1), address(2), 10_000, [254]);
    assert_eq!(r, Err(AmmError::InvalidArgument));
    assert_eq!(config.state(), 1);
    assert_eq!(config.seed(), 42);
    assert_eq!(*config.mint_x(), address(1));
    assert_eq!(config.fee(), 5);
    assert_eq!(config.config_bump(), [17]);
}

#[test]
fn has_authority_treats_zero_as_none() {
    let mut config = sample();
    assert_eq!(config.has_authority(), Some(address(9)));
    config.set_authority(Address::default());
    assert_eq!(config.has_authority(), None);
    let mut almost = [0u8; 32];
    almost[31] = 1;
    config.set_authority(Address::new_from_array(almost));
    assert_eq!(config.has_authority(), Some(Address::new_from_array(almost)));
}

#[test]
fn signer_seeds_are_tag_seed_mints_bump() {
    let seeds = sample().signer_seeds();
    assert_eq!(
        seeds,
        vec![
            b"config".to_vec(),
            0x0102_0304_0506_0708u64.to_le_bytes().to_vec(),
            vec![1u8; 32],
            vec![2u8; 32],
            vec![254u8],
        ]
    );
}

#[test]
fn load_checks_length_then_owner() {
    let good = config_account(sample_bytes(), amm_core::id());
    assert_eq!(Config::load(&good), Ok(sample()));
    assert_eq!(Config::load_mut(&good), Ok(sample()));
    assert_eq!(Config::load_unchecked(&good), Ok(sample()));

    let mut short = sample_bytes();
    short.pop();
    let short = config_account(short, amm_core::id());
    assert_eq!(Config::load(&short), Err(AmmError::AccountShapeViolation));

    let mut long = sample_bytes();
    long.push(0);
    let long = config_account(long, address(7));
    assert_eq!(Config::load(&long), Err(AmmError::AccountShapeViolation));

    let foreign = config_account(sample_bytes(), address(7));
    assert_eq!(Config::load(&foreign), Err(AmmError::AddressMismatch));
    assert_eq!(Config::load_mut(&foreign), Err(AmmError::AddressMismatch));
    assert_eq!(Config::load_unchecked(&foreign), Err(AmmError::AddressMismatch));
}

#[test]
fn load_mut_unchecked_checks_only_length() {
    let foreign = config_account(sample_bytes(), address(7));
    assert_eq!(Config::load_mut_unchecked(&foreign), Ok(sample()));
    let empty = config_account(Vec::new(), amm_core::id());
    assert_eq!(Config::load_mut_unchecked(&empty), Err(AmmError::AccountShapeViolation));
}

#[test]
fn store_writes_the_record() {
    let mut account = config_account(vec![0u8; 108], amm_core::id());
    assert_eq!(sample().store(&mut account), Ok(()));
    assert_eq!(account.data, sample_bytes());
    assert_eq!(Config::load(&account), Ok(sample()));
}

#[test]
fn store_leaves_other_accounts_alone() {
    let mut foreign = config_account(vec![0u8; 108], address(7));
    assert_eq!(sample().store(&mut foreign), Err(AmmError::AddressMismatch));
    assert_eq!(foreign.data, vec![0u8; 108]);
    let mut short = config_account(vec![0u8; 10], amm_core::id());
    assert_eq!(sample().store(&mut short), Err(AmmError::AccountShapeViolation));
    assert_eq!(short.data, vec![0u8; 10]);
}

#[test]
fn program_id_is_checked() {
    assert!(amm_core::check_id(&amm_core::id()));
    assert!(!amm_core::check_id(&Address::default()));
    assert_eq!(
        amm_core::id().to_bytes(),
        [
            15, 30, 107, 20, 33, 192, 74, 7, 4, 49, 38, 92, 25, 197, 187, 238, 25, 146, 186, 232,
            175, 209, 205, 7, 142, 248, 175, 112, 71, 220, 17, 247
        ]
    );
}
