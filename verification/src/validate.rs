//! The checks on accounts that the instructions share. Each is a function of
//! what the account list holds, and each refusal has one error.

use crate::account::{is_mint, is_token_account, Account};
use crate::address::{
    system_program, system_program_id, token_program, token_program_id, Address,
};
use crate::error::AmmError;
use crate::pda::{derive_vault, vault_address};
use crate::state::{config_account_check, config_from_bytes, Config};
use vstd::prelude::*;

verus! {

/// The first refusal of two checks made one after the other.
pub open spec fn first_error(first: Result<(), AmmError>, second: Result<(), AmmError>) -> Result<
    (),
    AmmError,
> {
    if first is Err {
        first
    } else {
        second
    }
}

/// The acting user must have signed.
pub open spec fn signer_check(user: Account) -> Result<(), AmmError> {
    if user.is_signer {
        Ok(())
    } else {
        Err(AmmError::MissingRequiredSignature)
    }
}

/// The account given as the token ledger must be the token ledger.
pub open spec fn token_program_check(program: Account) -> Result<(), AmmError> {
    if program.address@ == token_program_id() {
        Ok(())
    } else {
        Err(AmmError::InvalidArgument)
    }
}

/// The account given as the account-creation service must be that service.
pub open spec fn system_program_check(program: Account) -> Result<(), AmmError> {
    if program.address@ == system_program_id() {
        Ok(())
    } else {
        Err(AmmError::InvalidArgument)
    }
}

/// The vault must sit at the address derived from the pool record's address,
/// the token ledger's and the mint; where the derivation yields no address, no
/// account is the vault.
pub open spec fn vault_check(config: Account, program: Account, mint: Seq<u8>, vault: Account) -> Result<
    (),
    AmmError,
> {
    if vault_address(config.address@, program.address@, mint) == Some(vault.address@) {
        Ok(())
    } else {
        Err(AmmError::AddressMismatch)
    }
}

/// Both vaults must sit at their derived addresses, the mints taken from the
/// pool record, which must be loadable.
pub open spec fn vaults_check(config: Account, program: Account, vault_x: Account, vault_y: Account) -> Result<
    (),
    AmmError,
> {
    let record = config_from_bytes(config.data@);
    first_error(
        config_account_check(config),
        first_error(
            vault_check(config, program, record.mint_x, vault_x),
            vault_check(config, program, record.mint_y, vault_y),
        ),
    )
}

/// A token account must have the record length of one and belong to the
/// token ledger.
pub open spec fn token_account_check(account: Account, program: Account) -> Result<(), AmmError> {
    if is_token_account(account, program.address@) {
        Ok(())
    } else {
        Err(AmmError::AccountShapeViolation)
    }
}

/// A mint must have the record length of one and belong to the token ledger.
pub open spec fn mint_check(account: Account, program: Account) -> Result<(), AmmError> {
    if is_mint(account, program.address@) {
        Ok(())
    } else {
        Err(AmmError::AccountShapeViolation)
    }
}

/// What every instruction on an existing pool asks first: the user's
/// signature, a pool record of this program, and the token ledger.
pub open spec fn pool_check(user: Account, config: Account, program: Account) -> Result<(), AmmError> {
    first_error(
        signer_check(user),
        first_error(config_account_check(config), token_program_check(program)),
    )
}

/// The four token accounts a trade touches.
pub open spec fn trade_accounts_check(
    program: Account,
    vault_x: Account,
    vault_y: Account,
    user_x: Account,
    user_y: Account,
) -> Result<(), AmmError> {
    first_error(
        token_account_check(vault_x, program),
        first_error(
            token_account_check(vault_y, program),
            first_error(token_account_check(user_x, program), token_account_check(user_y, program)),
        ),
    )
}

/// What is asked of the nine accounts of a deposit, in the order in which it
/// is asked: the vaults come directly after the token ledger, the shapes of
/// the token records after them. The list is: the user, the mint of the pool
/// shares, the vaults of the first and the second asset, the user's accounts
/// of the first asset, of the second and of pool shares, the pool record, the
/// token ledger.
pub open spec fn deposit_accounts_check(accounts: Seq<Account>) -> Result<(), AmmError> {
    if accounts.len() != 9 {
        Err(AmmError::NotEnoughAccountKeys)
    } else {
        first_error(
            pool_check(accounts[0], accounts[7], accounts[8]),
            first_error(
                vaults_check(accounts[7], accounts[8], accounts[2], accounts[3]),
                first_error(
                    mint_check(accounts[1], accounts[8]),
                    first_error(
                        trade_accounts_check(
                            accounts[8],
                            accounts[2],
                            accounts[3],
                            accounts[4],
                            accounts[5],
                        ),
                        token_account_check(accounts[6], accounts[8]),
                    ),
                ),
            ),
        )
    }
}

/// What is asked of the nine accounts of a withdrawal, in the order in which
/// it is asked: the mint of the pool shares comes directly after the token
/// ledger, then the vaults, then the shapes of the token accounts. The list
/// is that of a deposit.
pub open spec fn withdraw_accounts_check(accounts: Seq<Account>) -> Result<(), AmmError> {
    if accounts.len() != 9 {
        Err(AmmError::NotEnoughAccountKeys)
    } else {
        first_error(
            pool_check(accounts[0], accounts[7], accounts[8]),
            first_error(
                mint_check(accounts[1], accounts[8]),
                first_error(
                    vaults_check(accounts[7], accounts[8], accounts[2], accounts[3]),
                    first_error(
                        trade_accounts_check(
                            accounts[8],
                            accounts[2],
                            accounts[3],
                            accounts[4],
                            accounts[5],
                        ),
                        token_account_check(accounts[6], accounts[8]),
                    ),
                ),
            ),
        )
    }
}

/// What is asked of the seven accounts of a swap, in the order in which it is
/// asked: the shapes of the four token accounts come directly after the token
/// ledger, the vaults after them. The list is: the user, the user's accounts
/// of the first and of the second asset, the vaults of the first and the
/// second asset, the pool record, the token ledger.
pub open spec fn swap_accounts_check(accounts: Seq<Account>) -> Result<(), AmmError> {
    if accounts.len() != 7 {
        Err(AmmError::NotEnoughAccountKeys)
    } else {
        first_error(
            pool_check(accounts[0], accounts[5], accounts[6]),
            first_error(
                trade_accounts_check(
                    accounts[6],
                    accounts[3],
                    accounts[4],
                    accounts[1],
                    accounts[2],
                ),
                vaults_check(accounts[5], accounts[6], accounts[3], accounts[4]),
            ),
        )
    }
}

/// What is asked of the five accounts of an initialisation, in the order in
/// which it is asked. The list is: who initialises, the mint of the pool
/// shares and the pool record, both yet to be created, the account-creation
/// service, the token ledger.
pub open spec fn initialize_accounts_check(accounts: Seq<Account>) -> Result<(), AmmError> {
    if accounts.len() != 5 {
        Err(AmmError::NotEnoughAccountKeys)
    } else {
        first_error(
            signer_check(accounts[0]),
            first_error(system_program_check(accounts[3]), token_program_check(accounts[4])),
        )
    }
}

/// Checks the user's signature.
pub fn check_signer(user: &Account) -> (r: Result<(), AmmError>)
    ensures
        r == signer_check(*user),
{
    if user.is_signer() {
        Ok(())
    } else {
        Err(AmmError::MissingRequiredSignature)
    }
}

/// Checks that `program` is the token ledger.
pub fn check_token_program(program: &Account) -> (r: Result<(), AmmError>)
    ensures
        r == token_program_check(*program),
{
    let ledger = token_program();
    if *program.address() == ledger {
        Ok(())
    } else {
        Err(AmmError::InvalidArgument)
    }
}

/// Checks that `program` is the account-creation service.
pub fn check_system_program(program: &Account) -> (r: Result<(), AmmError>)
    ensures
        r == system_program_check(*program),
{
    let service = system_program();
    if *program.address() == service {
        Ok(())
    } else {
        Err(AmmError::InvalidArgument)
    }
}

/// Holds a derived address against the account given as the vault: the
/// account must sit at exactly that address, and where nothing was derived no
/// account does.
pub fn vault_at(derived: Option<Address>, vault: &Account) -> (r: Result<(), AmmError>)
    ensures
        r == (if derived is Some && derived->Some_0@ == vault.address@ {
            Ok::<(), AmmError>(())
        } else {
            Err::<(), AmmError>(AmmError::AddressMismatch)
        }),
{
    match derived {
        Some(address) => {
            if address == *vault.address() {
                Ok(())
            } else {
                Err(AmmError::AddressMismatch)
            }
        },
        None => Err(AmmError::AddressMismatch),
    }
}

/// Checks that `vault` sits at the address derived for `mint`.
pub fn check_vault(config: &Account, program: &Account, mint: &Address, vault: &Account) -> (r: Result<
    (),
    AmmError,
>)
    ensures
        r == vault_check(*config, *program, mint@, *vault),
{
    let derived = derive_vault(config.address(), program.address(), mint);
    vault_at(derived, vault)
}

/// Checks both vaults against the mints of the pool record in `config`.
pub fn check_vaults(config: &Account, program: &Account, vault_x: &Account, vault_y: &Account) -> (r:
    Result<(), AmmError>)
    ensures
        r == vaults_check(*config, *program, *vault_x, *vault_y),
{
    let record = match Config::load(config) {
        Ok(record) => record,
        Err(e) => {
            return Err(e);
        },
    };
    match check_vault(config, program, record.mint_x(), vault_x) {
        Ok(()) => check_vault(config, program, record.mint_y(), vault_y),
        Err(e) => Err(e),
    }
}

/// Checks that `account` is a token account of the ledger at `program`.
pub fn check_token_account(account: &Account, program: &Account) -> (r: Result<(), AmmError>)
    ensures
        r == token_account_check(*account, *program),
{
    if account.is_token_account(program.address()) {
        Ok(())
    } else {
        Err(AmmError::AccountShapeViolation)
    }
}

/// Checks that `account` is a mint of the ledger at `program`.
pub fn check_mint(account: &Account, program: &Account) -> (r: Result<(), AmmError>)
    ensures
        r == mint_check(*account, *program),
{
    if account.is_mint(program.address()) {
        Ok(())
    } else {
        Err(AmmError::AccountShapeViolation)
    }
}

/// Checks the user's signature, the pool record's account and the token
/// ledger, in this order.
pub fn check_pool(user: &Account, config: &Account, program: &Account) -> (r: Result<(), AmmError>)
    ensures
        r == pool_check(*user, *config, *program),
{
    match check_signer(user) {
        Ok(()) => {},
        Err(e) => {
            return Err(e);
        },
    }
    match Config::load(config) {
        Ok(_) => {},
        Err(e) => {
            return Err(e);
        },
    }
    check_token_program(program)
}

/// Checks the two vaults and the user's two asset accounts, in this order.
pub fn check_trade_accounts(
    program: &Account,
    vault_x: &Account,
    vault_y: &Account,
    user_x: &Account,
    user_y: &Account,
) -> (r: Result<(), AmmError>)
    ensures
        r == trade_accounts_check(*program, *vault_x, *vault_y, *user_x, *user_y),
{
    match check_token_account(vault_x, program) {
        Ok(()) => {},
        Err(e) => {
            return Err(e);
        },
    }
    match check_token_account(vault_y, program) {
        Ok(()) => {},
        Err(e) => {
            return Err(e);
        },
    }
    match check_token_account(user_x, program) {
        Ok(()) => {},
        Err(e) => {
            return Err(e);
        },
    }
    check_token_account(user_y, program)
}

/// Checks the nine accounts of a deposit.
pub fn check_deposit_accounts(accounts: &[Account]) -> (r: Result<(), AmmError>)
    ensures
        r == deposit_accounts_check(accounts@),
{
    if accounts.len() != 9 {
        return Err(AmmError::NotEnoughAccountKeys);
    }
    let program = &accounts[8];
    match check_pool(&accounts[0], &accounts[7], program) {
        Ok(()) => {},
        Err(e) => {
            return Err(e);
        },
    }
    match check_vaults(&accounts[7], program, &accounts[2], &accounts[3]) {
        Ok(()) => {},
        Err(e) => {
            return Err(e);
        },
    }
    match check_mint(&accounts[1], program) {
        Ok(()) => {},
        Err(e) => {
            return Err(e);
        },
    }
    match check_trade_accounts(program, &accounts[2], &accounts[3], &accounts[4], &accounts[5]) {
        Ok(()) => {},
        Err(e) => {
            return Err(e);
        },
    }
    check_token_account(&accounts[6], program)
}

/// Checks the nine accounts of a withdrawal.
pub fn check_withdraw_accounts(accounts: &[Account]) -> (r: Result<(), AmmError>)
    ensures
        r == withdraw_accounts_check(accounts@),
{
    if accounts.len() != 9 {
        return Err(AmmError::NotEnoughAccountKeys);
    }
    let program = &accounts[8];
    match check_pool(&accounts[0], &accounts[7], program) {
        Ok(()) => {},
        Err(e) => {
            return Err(e);
        },
    }
    match check_mint(&accounts[1], program) {
        Ok(()) => {},
        Err(e) => {
            return Err(e);
        },
    }
    match check_vaults(&accounts[7], program, &accounts[2], &accounts[3]) {
        Ok(()) => {},
        Err(e) => {
            return Err(e);
        },
    }
    match check_trade_accounts(program, &accounts[2], &accounts[3], &accounts[4], &accounts[5]) {
        Ok(()) => {},
        Err(e) => {
            return Err(e);
        },
    }
    check_token_account(&accounts[6], program)
}

/// Checks the seven accounts of a swap.
pub fn check_swap_accounts(accounts: &[Account]) -> (r: Result<(), AmmError>)
    ensures
        r == swap_accounts_check(accounts@),
{
    if accounts.len() != 7 {
        return Err(AmmError::NotEnoughAccountKeys);
    }
    let program = &accounts[6];
    match check_pool(&accounts[0], &accounts[5], program) {
        Ok(()) => {},
        Err(e) => {
            return Err(e);
        },
    }
    match check_trade_accounts(program, &accounts[3], &accounts[4], &accounts[1], &accounts[2]) {
        Ok(()) => {},
        Err(e) => {
            return Err(e);
        },
    }
    check_vaults(&accounts[5], program, &accounts[3], &accounts[4])
}

/// Checks the five accounts of an initialisation.
pub fn check_initialize_accounts(accounts: &[Account]) -> (r: Result<(), AmmError>)
    ensures
        r == initialize_accounts_check(accounts@),
{
    if accounts.len() != 5 {
        return Err(AmmError::NotEnoughAccountKeys);
    }
    match check_signer(&accounts[0]) {
        Ok(()) => {},
        Err(e) => {
            return Err(e);
        },
    }
    match check_system_program(&accounts[3]) {
        Ok(()) => {},
        Err(e) => {
            return Err(e);
        },
    }
    check_token_program(&accounts[4])
}

/// In a deposit of nine accounts whose signer, pool record and token ledger
/// are in order, a vault that is not at its derived address is refused as an
/// address mismatch, whatever the other accounts hold; and a deposit whose
/// accounts are accepted has both vaults at the addresses derived from the
/// mints of the pool record.
pub proof fn lemma_deposit_vaults_first(accounts: Seq<Account>)
    requires
        accounts.len() == 9,
        pool_check(accounts[0], accounts[7], accounts[8]) is Ok,
    ensures
        vaults_check(accounts[7], accounts[8], accounts[2], accounts[3]) is Err
            ==> deposit_accounts_check(accounts) == Err::<(), AmmError>(AmmError::AddressMismatch),
        deposit_accounts_check(accounts) is Ok ==> {
            let record = config_from_bytes(accounts[7].data@);
            &&& vault_address(accounts[7].address@, accounts[8].address@, record.mint_x) == Some(
                accounts[2].address@,
            )
            &&& vault_address(accounts[7].address@, accounts[8].address@, record.mint_y) == Some(
                accounts[3].address@,
            )
        },
{
}

/// In a swap of seven accounts whose signer, pool record and token ledger are
/// in order, a token account of the wrong length or owner is refused as a
/// shape violation, whatever addresses the vaults sit at; and a swap whose
/// accounts are accepted has both vaults at the addresses derived from the
/// mints of the pool record.
pub proof fn lemma_swap_shapes_first(accounts: Seq<Account>)
    requires
        accounts.len() == 7,
        pool_check(accounts[0], accounts[5], accounts[6]) is Ok,
    ensures
        !is_token_account(accounts[1], accounts[6].address@) || !is_token_account(
            accounts[2],
            accounts[6].address@,
        ) || !is_token_account(accounts[3], accounts[6].address@) || !is_token_account(
            accounts[4],
            accounts[6].address@,
        ) ==> swap_accounts_check(accounts) == Err::<(), AmmError>(
            AmmError::AccountShapeViolation,
        ),
        swap_accounts_check(accounts) is Ok ==> {
            let record = config_from_bytes(accounts[5].data@);
            &&& vault_address(accounts[5].address@, accounts[6].address@, record.mint_x) == Some(
                accounts[3].address@,
            )
            &&& vault_address(accounts[5].address@, accounts[6].address@, record.mint_y) == Some(
                accounts[4].address@,
            )
        },
{
}

} // verus!
