use amm_core::state::Config;
use amm_core::validate::{
    check_mint, check_signer, check_system_program, check_token_account, check_token_program,
    check_vault, vault_at,
};
use amm_core::{
    Account, Address, AmmError, DepositAccounts, InitializeAccounts, SwapAccounts,
    WithdrawAccounts,
};

const TOKEN: [u8; 32] = [
    6, 221, 246, 225, 215, 101, 161, 147, 217, 203, 225, 70, 206, 235, 121, 172, 28, 180, 133, 237,
    95, 91, 55, 145, 58, 140, 245, 133, 126, 255, 0, 169,
];

const ASSOCIATED: [u8; 32] = [
    140, 151, 37, 143, 78, 36, 137, 241, 187, 61, 16, 41, 20, 142, 13, 131, 11, 90, 19, 153, 218,
    255, 16, 132, 4, 142, 123, 216, 219, 233, 248, 89,
];

const MINT_X: [u8; 32] = [0xa1; 32];
const MINT_Y: [u8; 32] = [0xb2; 32];
const CONFIG: [u8; 32] = [0xc0; 32];

fn address(bytes: [u8; 32]) -> Address {
    Address::new_from_array(bytes)
}

fn plain(fill: u8, is_signer: bool) -> Account {
    Account { address: address([fill; 32]), owner: address([0; 32]), is_signer, data: Vec::new() }
}

fn program(at: [u8; 32]) -> Account {
    Account { address: address(at), owner: address([0; 32]), is_signer: false, data: Vec::new() }
}

fn token_account(at: [u8; 32], amount: u64) -> Account {
    let mut data = vec![0u8; 165];
    data[64..72].copy_from_slice(&amount.to_le_bytes());
    Account { address: address(at), owner: address(TOKEN), is_signer: false, data }
}

fn mint(at: [u8; 32], supply: u64) -> Account {
    let mut data = vec![0u8; 82];
    data[36..44].copy_from_slice(&supply.to_le_bytes());
    Account { address: address(at), owner: address(TOKEN), is_signer: false, data }
}

fn config_account(state: u8) -> Account {
    let mut record = Config::zeroed();
    record.set_inner(11, Address::default(), address(MINT_X), address(MINT_Y), 30, [250]).unwrap();
    record.set_state(state).unwrap();
    Account { address: address(CONFIG), owner: amm_core::id(), is_signer: false, data: record.to_bytes() }
}

fn vault_of(mint: [u8; 32]) -> [u8; 32] {
    let under = solana_address::Address::new_from_array(ASSOCIATED);
    let (at, _) = solana_address::Address::find_program_address(&[&CONFIG, &TOKEN, &mint], &under);
    at.to_bytes()
}

/// user, mint_lp, vault_x, vault_y, user_x, user_y, user_lp, config, token program
fn liquidity_accounts() -> Vec<Account> {
    vec![
        plain(1, true),
        mint([2; 32], 1_000),
        token_account(vault_of(MINT_X), 5_000),
        token_account(vault_of(MINT_Y), 7_000),
        token_account([5; 32], 0),
        token_account([6; 32], 0),
        token_account([7; 32], 100),
        config_account(1),
        program(TOKEN),
    ]
}

/// user, user_x, user_y, vault_x, vault_y, config, token program
fn swap_accounts() -> Vec<Account> {
    vec![
        plain(1, true),
        token_account([5; 32], 0),
        token_account([6; 32], 0),
        token_account(vault_of(MINT_X), 5_000),
        token_account(vault_of(MINT_Y), 7_000),
        config_account(1),
        program(TOKEN),
    ]
}

fn deposit_error(accounts: &[Account]) -> Option<AmmError> {
    DepositAccounts::try_from(accounts).err()
}

fn withdraw_error(accounts: &[Account]) -> Option<AmmError> {
    WithdrawAccounts::try_from(accounts).err()
}

fn swap_error(accounts: &[Account]) -> Option<AmmError> {
    SwapAccounts::try_from(accounts).err()
}

#[test]
fn well_known_addresses_are_those_of_the_ledger_crates() {
    assert_eq!(pinocchio_token::ID.to_bytes(), TOKEN);
    assert_eq!(pinocchio_associated_token_account::ID.to_bytes(), ASSOCIATED);
    assert_eq!(pinocchio_system::ID.to_bytes(), [0u8; 32]);
    assert_eq!(pinocchio_token::state::Account::LEN, 165);
    assert_eq!(pinocchio_token::state::Mint::LEN, 82);
}

#[test]
fn vault_addresses_differ_from_their_inputs() {
    let x = vault_of(MINT_X);
    let y = vault_of(MINT_Y);
    assert_ne!(x, y);
    assert_ne!(x, CONFIG);
    assert_ne!(x, TOKEN);
    assert_ne!(x, MINT_X);
    assert_eq!(x, vault_of(MINT_X));
}

#[test]
fn single_checks() {
    assert_eq!(check_signer(&plain(1, true)), Ok(()));
    assert_eq!(check_signer(&plain(1, false)), Err(AmmError::MissingRequiredSignature));
    assert_eq!(check_token_program(&program(TOKEN)), Ok(()));
    assert_eq!(check_token_program(&program(ASSOCIATED)), Err(AmmError::InvalidArgument));
    assert_eq!(check_system_program(&program([0; 32])), Ok(()));
    assert_eq!(check_system_program(&program(TOKEN)), Err(AmmError::InvalidArgument));
    assert_eq!(check_token_account(&token_account([5; 32], 1), &program(TOKEN)), Ok(()));
    assert_eq!(
        check_token_account(&mint([5; 32], 1), &program(TOKEN)),
        Err(AmmError::AccountShapeViolation)
    );
    assert_eq!(check_mint(&mint([5; 32], 1), &program(TOKEN)), Ok(()));
    assert_eq!(
        check_mint(&token_account([5; 32], 1), &program(TOKEN)),
        Err(AmmError::AccountShapeViolation)
    );
}

#[test]
fn vault_check_recomputes_the_address() {
    let config = config_account(1);
    let ledger = program(TOKEN);
    let good = token_account(vault_of(MINT_X), 1);
    assert_eq!(check_vault(&config, &ledger, &address(MINT_X), &good), Ok(()));
    assert_eq!(
        check_vault(&config, &ledger, &address(MINT_Y), &good),
        Err(AmmError::AddressMismatch)
    );
    let mut close = vault_of(MINT_X);
    close[31] ^= 1;
    assert_eq!(
        check_vault(&config, &ledger, &address(MINT_X), &token_account(close, 1)),
        Err(AmmError::AddressMismatch)
    );
    assert_eq!(
        check_vault(&config, &ledger, &address(MINT_X), &token_account(MINT_X, 1)),
        Err(AmmError::AddressMismatch)
    );
    assert_eq!(
        check_vault(&config, &ledger, &address(MINT_X), &token_account(CONFIG, 1)),
        Err(AmmError::AddressMismatch)
    );
}

#[test]
fn token_account_amounts_are_read_at_their_offsets() {
    assert_eq!(token_account([5; 32], 0x0102_0304_0506_0708).token_amount(), Ok(0x0102_0304_0506_0708));
    assert_eq!(mint([5; 32], u64::MAX).mint_supply(), Ok(u64::MAX));
    assert_eq!(mint([5; 32], 1).token_amount(), Err(AmmError::AccountShapeViolation));
    assert_eq!(token_account([5; 32], 1).mint_supply(), Err(AmmError::AccountShapeViolation));
    let mut foreign = token_account([5; 32], 1);
    foreign.owner = address([9; 32]);
    assert_eq!(foreign.token_amount(), Err(AmmError::AccountShapeViolation));
}

#[test]
fn deposit_accounts_accepted() {
    let accounts = liquidity_accounts();
    let roles = DepositAccounts::try_from(&accounts).unwrap();
    assert_eq!(roles.user.address, accounts[0].address);
    assert_eq!(roles.mint_lp.address, accounts[1].address);
    assert_eq!(roles.vault_x.address, accounts[2].address);
    assert_eq!(roles.vault_y.address, accounts[3].address);
    assert_eq!(roles.user_x_ata.address, accounts[4].address);
    assert_eq!(roles.user_y_ata.address, accounts[5].address);
    assert_eq!(roles.user_lp_ata.address, accounts[6].address);
    assert_eq!(roles.config.address, accounts[7].address);
    assert_eq!(roles.token_program.address, accounts[8].address);
}

#[test]
fn withdraw_accounts_accepted() {
    let accounts = liquidity_accounts();
    let roles = WithdrawAccounts::try_from(&accounts).unwrap();
    assert_eq!(roles.user.address, accounts[0].address);
    assert_eq!(roles.user_lp_ata.address, accounts[6].address);
    assert_eq!(roles.config.address, accounts[7].address);
}

#[test]
fn swap_accounts_accepted() {
    let accounts = swap_accounts();
    let roles = SwapAccounts::try_from(&accounts).unwrap();
    assert_eq!(roles.user.address, accounts[0].address);
    assert_eq!(roles.user_x_ata.address, accounts[1].address);
    assert_eq!(roles.user_y_ata.address, accounts[2].address);
    assert_eq!(roles.vault_x.address, accounts[3].address);
    assert_eq!(roles.vault_y.address, accounts[4].address);
    assert_eq!(roles.config.address, accounts[5].address);
    assert_eq!(roles.token_program.address, accounts[6].address);
}

#[test]
fn wrong_arity_is_refused_first() {
    let mut accounts = liquidity_accounts();
    accounts[0].is_signer = false;
    accounts.pop();
    assert_eq!(deposit_error(&accounts), Some(AmmError::NotEnoughAccountKeys));
    assert_eq!(withdraw_error(&accounts), Some(AmmError::NotEnoughAccountKeys));
    accounts.push(program(TOKEN));
    accounts.push(program(TOKEN));
    assert_eq!(deposit_error(&accounts), Some(AmmError::NotEnoughAccountKeys));
    assert_eq!(withdraw_error(&accounts), Some(AmmError::NotEnoughAccountKeys));
    assert_eq!(swap_error(&liquidity_accounts()), Some(AmmError::NotEnoughAccountKeys));
    assert_eq!(swap_error(&[]), Some(AmmError::NotEnoughAccountKeys));
    assert_eq!(
        InitializeAccounts::try_from(&swap_accounts()).err(),
        Some(AmmError::NotEnoughAccountKeys)
    );
}

#[test]
fn missing_signature_is_refused() {
    let mut accounts = liquidity_accounts();
    accounts[0].is_signer = false;
    accounts[7].data.pop();
    assert_eq!(deposit_error(&accounts), Some(AmmError::MissingRequiredSignature));
    assert_eq!(withdraw_error(&accounts), Some(AmmError::MissingRequiredSignature));
    let mut accounts = swap_accounts();
    accounts[0].is_signer = false;
    assert_eq!(swap_error(&accounts), Some(AmmError::MissingRequiredSignature));
}

#[test]
fn config_of_wrong_length_is_refused() {
    let mut accounts = liquidity_accounts();
    accounts[7].data.push(0);
    accounts[7].owner = address([9; 32]);
    assert_eq!(deposit_error(&accounts), Some(AmmError::AccountShapeViolation));
    assert_eq!(withdraw_error(&accounts), Some(AmmError::AccountShapeViolation));
    let mut accounts = swap_accounts();
    accounts[5].data.clear();
    assert_eq!(swap_error(&accounts), Some(AmmError::AccountShapeViolation));
}

#[test]
fn config_of_another_program_is_refused() {
    let mut accounts = liquidity_accounts();
    accounts[7].owner = address(TOKEN);
    accounts[8] = program(ASSOCIATED);
    assert_eq!(deposit_error(&accounts), Some(AmmError::AddressMismatch));
    assert_eq!(withdraw_error(&accounts), Some(AmmError::AddressMismatch));
    let mut accounts = swap_accounts();
    accounts[5].owner = address([0; 32]);
    assert_eq!(swap_error(&accounts), Some(AmmError::AddressMismatch));
}

#[test]
fn wrong_token_program_is_refused() {
    let mut accounts = liquidity_accounts();
    accounts[8] = program(ASSOCIATED);
    accounts[2] = token_account([0x33; 32], 1);
    assert_eq!(deposit_error(&accounts), Some(AmmError::InvalidArgument));
    assert_eq!(withdraw_error(&accounts), Some(AmmError::InvalidArgument));
    let mut accounts = swap_accounts();
    accounts[6] = program([0; 32]);
    assert_eq!(swap_error(&accounts), Some(AmmError::InvalidArgument));
}

#[test]
fn malformed_share_mint_is_refused() {
    let mut accounts = liquidity_accounts();
    accounts[1].data.push(0);
    assert_eq!(deposit_error(&accounts), Some(AmmError::AccountShapeViolation));
    assert_eq!(withdraw_error(&accounts), Some(AmmError::AccountShapeViolation));
    let mut accounts = liquidity_accounts();
    accounts[1].owner = amm_core::id();
    assert_eq!(deposit_error(&accounts), Some(AmmError::AccountShapeViolation));
    assert_eq!(withdraw_error(&accounts), Some(AmmError::AccountShapeViolation));
}

#[test]
fn deposit_asks_the_vaults_before_the_share_mint() {
    let mut accounts = liquidity_accounts();
    accounts[1].data.push(0);
    accounts[2] = token_account([0x33; 32], 1);
    assert_eq!(deposit_error(&accounts), Some(AmmError::AddressMismatch));
    let mut accounts = liquidity_accounts();
    accounts[1].owner = amm_core::id();
    accounts[3] = token_account([0x33; 32], 1);
    accounts[6].data.pop();
    assert_eq!(deposit_error(&accounts), Some(AmmError::AddressMismatch));
}

#[test]
fn withdraw_asks_the_share_mint_before_the_vaults() {
    let mut accounts = liquidity_accounts();
    accounts[1].data.push(0);
    accounts[2] = token_account([0x33; 32], 1);
    assert_eq!(withdraw_error(&accounts), Some(AmmError::AccountShapeViolation));
}

#[test]
fn swap_asks_the_token_accounts_before_the_vaults() {
    for at in [1usize, 2, 3, 4] {
        let mut accounts = swap_accounts();
        accounts.swap(3, 4);
        accounts[at].data.pop();
        assert_eq!(swap_error(&accounts), Some(AmmError::AccountShapeViolation));
        let mut accounts = swap_accounts();
        accounts[3].address = address([0x33; 32]);
        accounts[at].owner = amm_core::id();
        assert_eq!(swap_error(&accounts), Some(AmmError::AccountShapeViolation));
    }
    let mut accounts = swap_accounts();
    accounts[3].address = address([0x33; 32]);
    assert_eq!(swap_error(&accounts), Some(AmmError::AddressMismatch));
}

#[test]
fn derived_address_is_held_against_the_vault() {
    let vault = token_account([0x44; 32], 1);
    assert_eq!(vault_at(Some(address([0x44; 32])), &vault), Ok(()));
    assert_eq!(vault_at(Some(address([0x45; 32])), &vault), Err(AmmError::AddressMismatch));
    let mut close = [0x44u8; 32];
    close[0] = 0x45;
    assert_eq!(vault_at(Some(address(close)), &vault), Err(AmmError::AddressMismatch));
    assert_eq!(vault_at(None, &vault), Err(AmmError::AddressMismatch));
    let zero = token_account([0; 32], 1);
    assert_eq!(vault_at(None, &zero), Err(AmmError::AddressMismatch));
    assert_eq!(vault_at(Some(address([0; 32])), &zero), Ok(()));
}

#[test]
fn vault_at_another_address_is_refused() {
    let mut accounts = liquidity_accounts();
    accounts[2] = token_account([0x33; 32], 5_000);
    assert_eq!(deposit_error(&accounts), Some(AmmError::AddressMismatch));
    assert_eq!(withdraw_error(&accounts), Some(AmmError::AddressMismatch));
    let mut accounts = liquidity_accounts();
    accounts[3] = token_account(vault_of(MINT_X), 5_000);
    assert_eq!(deposit_error(&accounts), Some(AmmError::AddressMismatch));
    assert_eq!(withdraw_error(&accounts), Some(AmmError::AddressMismatch));
    let mut accounts = swap_accounts();
    accounts.swap(3, 4);
    assert_eq!(swap_error(&accounts), Some(AmmError::AddressMismatch));
}

#[test]
fn vault_mismatch_comes_before_token_account_shapes() {
    let mut accounts = liquidity_accounts();
    accounts[2] = token_account([0x33; 32], 5_000);
    accounts[4].data.pop();
    assert_eq!(withdraw_error(&accounts), Some(AmmError::AddressMismatch));
    assert_eq!(deposit_error(&accounts), Some(AmmError::AddressMismatch));
}

#[test]
fn malformed_token_accounts_are_refused() {
    for at in [2usize, 3, 4, 5, 6] {
        let mut accounts = liquidity_accounts();
        accounts[at].data.pop();
        assert_eq!(deposit_error(&accounts), Some(AmmError::AccountShapeViolation));
        assert_eq!(withdraw_error(&accounts), Some(AmmError::AccountShapeViolation));
        let mut accounts = liquidity_accounts();
        accounts[at].owner = amm_core::id();
        assert_eq!(deposit_error(&accounts), Some(AmmError::AccountShapeViolation));
        assert_eq!(withdraw_error(&accounts), Some(AmmError::AccountShapeViolation));
    }
    for at in [1usize, 2, 3, 4] {
        let mut accounts = swap_accounts();
        accounts[at].data.push(1);
        assert_eq!(swap_error(&accounts), Some(AmmError::AccountShapeViolation));
        let mut accounts = swap_accounts();
        accounts[at].owner = address([0; 32]);
        assert_eq!(swap_error(&accounts), Some(AmmError::AccountShapeViolation));
    }
}

#[test]
fn account_checks_do_not_look_at_the_pool_state() {
    let mut accounts = liquidity_accounts();
    accounts[7] = config_account(2);
    assert!(DepositAccounts::try_from(&accounts).is_ok());
    assert!(WithdrawAccounts::try_from(&accounts).is_ok());
}

#[test]
fn initialize_accounts_accepted() {
    let accounts =
        vec![plain(1, true), plain(2, false), plain(3, false), program([0; 32]), program(TOKEN)];
    let roles = InitializeAccounts::try_from(&accounts).unwrap();
    assert_eq!(roles.initializer.address, accounts[0].address);
    assert_eq!(roles.mint_lp.address, accounts[1].address);
    assert_eq!(roles.config.address, accounts[2].address);
    assert_eq!(roles.system_program.address, accounts[3].address);
    assert_eq!(roles.token_program.address, accounts[4].address);
}

#[test]
fn initialize_accounts_refused() {
    let good =
        vec![plain(1, true), plain(2, false), plain(3, false), program([0; 32]), program(TOKEN)];
    let mut accounts = good.clone();
    accounts[0].is_signer = false;
    accounts[3] = program(TOKEN);
    assert_eq!(
        InitializeAccounts::try_from(&accounts).err(),
        Some(AmmError::MissingRequiredSignature)
    );
    let mut accounts = good.clone();
    accounts[3] = program(TOKEN);
    accounts[4] = program([0; 32]);
    assert_eq!(InitializeAccounts::try_from(&accounts).err(), Some(AmmError::InvalidArgument));
    let mut accounts = good.clone();
    accounts[4] = program(ASSOCIATED);
    assert_eq!(InitializeAccounts::try_from(&accounts).err(), Some(AmmError::InvalidArgument));
    assert_eq!(
        InitializeAccounts::try_from(&good[..4]).err(),
        Some(AmmError::NotEnoughAccountKeys)
    );
}
