use amm_core::{
    AmmError, DepositInstructionData, InitializeInstructionData, SwapInstructionData,
    WithdrawInstructionData,
};

fn four(a: u64, b: u64, c: u64, d: i64) -> Vec<u8> {
    let mut data: Vec<u8> = Vec::new();
    data.extend_from_slice(&a.to_le_bytes());
    data.extend_from_slice(&b.to_le_bytes());
    data.extend_from_slice(&c.to_le_bytes());
    data.extend_from_slice(&d.to_le_bytes());
    data
}

fn swap_payload(flag: u8, amount: u64, min: u64, expiration: i64) -> Vec<u8> {
    let mut data: Vec<u8> = vec![flag];
    data.extend_from_slice(&amount.to_le_bytes());
    data.extend_from_slice(&min.to_le_bytes());
    data.extend_from_slice(&expiration.to_le_bytes());
    data
}

fn initialize_payload(with_authority: bool) -> Vec<u8> {
    let mut data: Vec<u8> = Vec::new();
    data.extend_from_slice(&0x1122_3344_5566_7788u64.to_le_bytes());
    data.extend_from_slice(&300u16.to_le_bytes());
    data.extend_from_slice(&[0xa1; 32]);
    data.extend_from_slice(&[0xb2; 32]);
    data.push(253);
    data.push(251);
    if with_authority {
        data.extend_from_slice(&[0xc3; 32]);
    }
    data
}

#[test]
fn deposit_decodes_fields_in_order() {
    let data = four(5, 6, 7, 8);
    assert_eq!(
        DepositInstructionData::try_from(&data, Some(0)),
        Ok(DepositInstructionData { amount: 5, max_x: 6, max_y: 7, expiration: 8 })
    );
}

#[test]
fn deposit_rejects_other_lengths() {
    let data = four(5, 6, 7, 0);
    assert_eq!(DepositInstructionData::try_from(&data[..31], Some(0)), Err(AmmError::MalformedInput));
    let mut long = data.clone();
    long.push(0);
    assert_eq!(DepositInstructionData::try_from(&long, Some(0)), Err(AmmError::MalformedInput));
    assert_eq!(DepositInstructionData::try_from(&[], Some(0)), Err(AmmError::MalformedInput));
}

#[test]
fn deposit_rejects_zero_amount_before_reading_the_clock() {
    assert_eq!(
        DepositInstructionData::try_from(&four(0, 6, 7, 0), None),
        Err(AmmError::InvalidArgument)
    );
    assert_eq!(
        DepositInstructionData::try_from(&four(0, 6, 7, 1), Some(100)),
        Err(AmmError::InvalidArgument)
    );
}

#[test]
fn deposit_accepts_zero_maxima() {
    assert_eq!(
        DepositInstructionData::try_from(&four(1, 0, 0, 0), Some(9)),
        Ok(DepositInstructionData { amount: 1, max_x: 0, max_y: 0, expiration: 0 })
    );
}

#[test]
fn deposit_needs_the_clock() {
    assert_eq!(
        DepositInstructionData::try_from(&four(1, 1, 1, 0), None),
        Err(AmmError::ClockUnavailable)
    );
}

#[test]
fn deposit_expires_after_the_deadline() {
    let data = four(1, 1, 1, 1_000);
    assert!(DepositInstructionData::try_from(&data, Some(999)).is_ok());
    assert!(DepositInstructionData::try_from(&data, Some(1_000)).is_ok());
    assert_eq!(DepositInstructionData::try_from(&data, Some(1_001)), Err(AmmError::Expired));
}

#[test]
fn zero_deadline_never_expires() {
    assert!(DepositInstructionData::try_from(&four(1, 1, 1, 0), Some(i64::MAX)).is_ok());
    assert!(WithdrawInstructionData::try_from(&four(1, 1, 1, 0), Some(i64::MAX)).is_ok());
    assert!(SwapInstructionData::try_from(&swap_payload(1, 1, 1, 0), Some(i64::MAX)).is_ok());
}

#[test]
fn negative_deadline_is_a_deadline() {
    let data = four(1, 1, 1, -5);
    assert!(DepositInstructionData::try_from(&data, Some(-6)).is_ok());
    assert_eq!(DepositInstructionData::try_from(&data, Some(0)), Err(AmmError::Expired));
}

#[test]
fn deposit_round_trip() {
    let data = four(u64::MAX, 0, 123_456_789, -77);
    let fields = DepositInstructionData::try_from(&data, Some(-100)).unwrap();
    assert_eq!(fields.to_bytes(), data);
    let again = DepositInstructionData { amount: 3, max_x: 2, max_y: 1, expiration: i64::MAX };
    assert_eq!(DepositInstructionData::try_from(&again.to_bytes(), Some(0)), Ok(again));
}

#[test]
fn withdraw_decodes_fields_in_order() {
    let data = four(5, 6, 7, 8);
    assert_eq!(
        WithdrawInstructionData::try_from(&data, Some(8)),
        Ok(WithdrawInstructionData { amount: 5, min_x: 6, min_y: 7, expiration: 8 })
    );
}

#[test]
fn withdraw_rejects_other_lengths() {
    let data = four(5, 6, 7, 0);
    assert_eq!(WithdrawInstructionData::try_from(&data[..24], Some(0)), Err(AmmError::MalformedInput));
    let mut long = data.clone();
    long.extend_from_slice(&[0; 8]);
    assert_eq!(WithdrawInstructionData::try_from(&long, Some(0)), Err(AmmError::MalformedInput));
}

#[test]
fn withdraw_rejects_zero_amount_and_accepts_zero_floors() {
    assert_eq!(
        WithdrawInstructionData::try_from(&four(0, 1, 1, 0), Some(0)),
        Err(AmmError::InvalidArgument)
    );
    assert!(WithdrawInstructionData::try_from(&four(1, 0, 0, 0), Some(0)).is_ok());
}

#[test]
fn withdraw_expires_after_the_deadline() {
    let data = four(1, 1, 1, 50);
    assert!(WithdrawInstructionData::try_from(&data, Some(50)).is_ok());
    assert_eq!(WithdrawInstructionData::try_from(&data, Some(51)), Err(AmmError::Expired));
    assert_eq!(WithdrawInstructionData::try_from(&data, None), Err(AmmError::ClockUnavailable));
}

#[test]
fn withdraw_round_trip() {
    let data = four(9, 8, 7, 6);
    let fields = WithdrawInstructionData::try_from(&data, Some(0)).unwrap();
    assert_eq!(fields.to_bytes(), data);
}

#[test]
fn swap_decodes_fields_in_order() {
    assert_eq!(
        SwapInstructionData::try_from(&swap_payload(1, 10, 20, 30), Some(30)),
        Ok(SwapInstructionData { is_x: true, amount: 10, min: 20, expiration: 30 })
    );
    assert_eq!(
        SwapInstructionData::try_from(&swap_payload(0, 10, 20, 0), Some(30)),
        Ok(SwapInstructionData { is_x: false, amount: 10, min: 20, expiration: 0 })
    );
}

#[test]
fn swap_rejects_other_lengths() {
    let data = swap_payload(1, 10, 20, 0);
    assert_eq!(SwapInstructionData::try_from(&data[..24], Some(0)), Err(AmmError::MalformedInput));
    let mut long = data.clone();
    long.push(0);
    assert_eq!(SwapInstructionData::try_from(&long, Some(0)), Err(AmmError::MalformedInput));
    assert_eq!(SwapInstructionData::try_from(&[0u8; 32], Some(0)), Err(AmmError::MalformedInput));
}

#[test]
fn swap_rejects_flag_that_is_no_bool() {
    assert_eq!(
        SwapInstructionData::try_from(&swap_payload(2, 10, 20, 0), Some(0)),
        Err(AmmError::MalformedInput)
    );
    assert_eq!(
        SwapInstructionData::try_from(&swap_payload(255, 10, 20, 0), Some(0)),
        Err(AmmError::MalformedInput)
    );
}

#[test]
fn swap_checks_deadline_before_amounts() {
    assert_eq!(
        SwapInstructionData::try_from(&swap_payload(1, 0, 0, 5), Some(6)),
        Err(AmmError::Expired)
    );
    assert_eq!(
        SwapInstructionData::try_from(&swap_payload(1, 0, 0, 5), None),
        Err(AmmError::ClockUnavailable)
    );
    assert_eq!(
        SwapInstructionData::try_from(&swap_payload(1, 0, 7, 5), Some(5)),
        Err(AmmError::InvalidArgument)
    );
}

#[test]
fn swap_rejects_zero_amount_and_zero_floor() {
    assert_eq!(
        SwapInstructionData::try_from(&swap_payload(1, 0, 1, 0), Some(0)),
        Err(AmmError::InvalidArgument)
    );
    assert_eq!(
        SwapInstructionData::try_from(&swap_payload(1, 1, 0, 0), Some(0)),
        Err(AmmError::InvalidArgument)
    );
}

#[test]
fn swap_round_trip() {
    for flag in [0u8, 1u8] {
        let data = swap_payload(flag, 0x0102_0304, u64::MAX, i64::MIN);
        let fields = SwapInstructionData::try_from(&data, Some(i64::MIN)).unwrap();
        assert_eq!(fields.to_bytes(), data);
    }
}

#[test]
fn initialize_decodes_with_authority() {
    let fields = InitializeInstructionData::try_from(&initialize_payload(true)).unwrap();
    assert_eq!(
        fields,
        InitializeInstructionData {
            seed: 0x1122_3344_5566_7788,
            fee: 300,
            mint_x: [0xa1; 32],
            mint_y: [0xb2; 32],
            config_bump: [253],
            lp_bump: [251],
            authority: [0xc3; 32],
        }
    );
}

#[test]
fn initialize_decodes_without_authority() {
    let fields = InitializeInstructionData::try_from(&initialize_payload(false)).unwrap();
    assert_eq!(fields.seed, 0x1122_3344_5566_7788);
    assert_eq!(fields.fee, 300);
    assert_eq!(fields.mint_x, [0xa1; 32]);
    assert_eq!(fields.mint_y, [0xb2; 32]);
    assert_eq!(fields.config_bump, [253]);
    assert_eq!(fields.lp_bump, [251]);
    assert_eq!(fields.authority, [0u8; 32]);
}

#[test]
fn initialize_rejects_other_lengths() {
    let data = initialize_payload(true);
    for len in [0usize, 1, 75, 77, 107] {
        assert_eq!(InitializeInstructionData::try_from(&data[..len]), Err(AmmError::MalformedInput));
    }
    let mut long = data.clone();
    long.push(0);
    assert_eq!(InitializeInstructionData::try_from(&long), Err(AmmError::MalformedInput));
}

#[test]
fn initialize_rejects_equal_mints() {
    let mut data = initialize_payload(true);
    for i in 42..74 {
        data[i] = 0xa1;
    }
    assert_eq!(InitializeInstructionData::try_from(&data), Err(AmmError::InvalidArgument));
    data[73] = 0xa0;
    assert!(InitializeInstructionData::try_from(&data).is_ok());
}

#[test]
fn initialize_accepts_any_fee_at_decoding() {
    let mut data = initialize_payload(false);
    data[8] = 0xff;
    data[9] = 0xff;
    assert_eq!(InitializeInstructionData::try_from(&data).map(|f| f.fee), Ok(u16::MAX));
}

#[test]
fn initialize_round_trip() {
    let data = initialize_payload(true);
    assert_eq!(InitializeInstructionData::try_from(&data).unwrap().to_bytes(), data);
    let short = initialize_payload(false);
    let mut padded = short.clone();
    padded.extend_from_slice(&[0u8; 32]);
    assert_eq!(InitializeInstructionData::try_from(&short).unwrap().to_bytes(), padded);
}
