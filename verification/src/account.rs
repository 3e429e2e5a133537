//! What the library sees of an account: its address, its owner, whether it
//! signed, and its data. Token records are read at the offsets the token
//! ledger lays them out with.

use crate::address::{token_program, token_program_id, Address};
use crate::bytes::{le_value, lemma_le_value_8, read_u64_le};
use crate::error::AmmError;
use vstd::prelude::*;

verus! {

/// One entry of the account list an instruction is called with.
#[derive(Clone, Debug)]
pub struct Account {
    /// Where the account lives.
    pub address: Address,
    /// The program that owns the account.
    pub owner: Address,
    /// Whether the account signed the transaction.
    pub is_signer: bool,
    /// The account's data.
    pub data: Vec<u8>,
}

/// Where the balance sits in a token account record.
pub const TOKEN_AMOUNT_OFFSET: usize = 64;

/// Where the supply sits in a mint record.
pub const MINT_SUPPLY_OFFSET: usize = 36;

/// The length of a token account record.
pub open spec fn token_account_len() -> nat {
    165
}

/// The length of a mint record.
pub open spec fn mint_len() -> nat {
    82
}

/// Whether the account has the length of a token account record and is owned
/// by `token_program`.
pub open spec fn is_token_account(account: Account, token_program: Seq<u8>) -> bool {
    account.data@.len() == token_account_len() && account.owner@ == token_program
}

/// Whether the account has the length of a mint record and is owned by
/// `token_program`.
pub open spec fn is_mint(account: Account, token_program: Seq<u8>) -> bool {
    account.data@.len() == mint_len() && account.owner@ == token_program
}

/// The balance a token account record holds.
pub open spec fn token_amount(account: Account) -> nat
    recommends
        account.data@.len() == token_account_len(),
{
    le_value(account.data@.subrange(64, 72))
}

/// The supply a mint record holds.
pub open spec fn mint_supply(account: Account) -> nat
    recommends
        account.data@.len() == mint_len(),
{
    le_value(account.data@.subrange(36, 44))
}

/// Reading a balance: the record must have the token account length and
/// belong to the token ledger.
pub open spec fn read_token_amount(account: Account) -> Result<u64, AmmError> {
    if !is_token_account(account, token_program_id()) {
        Err(AmmError::AccountShapeViolation)
    } else {
        Ok(token_amount(account) as u64)
    }
}

/// Reading a supply: the record must have the mint length and belong to the
/// token ledger.
pub open spec fn read_mint_supply(account: Account) -> Result<u64, AmmError> {
    if !is_mint(account, token_program_id()) {
        Err(AmmError::AccountShapeViolation)
    } else {
        Ok(mint_supply(account) as u64)
    }
}

/// `pinocchio_token::state::Account::LEN`: the size of the crate's token
/// account record. Its fields have an alignment of one byte and add up to
/// 32 + 32 + 8 + 4 + 32 + 1 + 4 + 8 + 8 + 4 + 32 = 165 bytes.
#[verifier::external_body]
pub(crate) fn token_account_size() -> (len: usize)
    ensures
        len == token_account_len(),
{
    pinocchio_token::state::Account::LEN
}

/// `pinocchio_token::state::Mint::LEN`: the size of the crate's mint record.
/// Its fields have an alignment of one byte and add up to
/// 4 + 32 + 8 + 1 + 1 + 4 + 32 = 82 bytes.
#[verifier::external_body]
pub(crate) fn mint_size() -> (len: usize)
    ensures
        len == mint_len(),
{
    pinocchio_token::state::Mint::LEN
}

impl Account {
    /// The account's address.
    pub fn address(&self) -> (address: &Address)
        ensures
            *address == self.address,
    {
        &self.address
    }

    /// The program that owns the account.
    pub fn owner(&self) -> (owner: &Address)
        ensures
            *owner == self.owner,
    {
        &self.owner
    }

    /// Whether the account signed the transaction.
    pub fn is_signer(&self) -> (signed: bool)
        ensures
            signed == self.is_signer,
    {
        self.is_signer
    }

    /// The length of the account's data.
    pub fn data_len(&self) -> (len: usize)
        ensures
            len == self.data@.len(),
    {
        self.data.len()
    }

    /// Whether `program` owns the account.
    pub fn owned_by(&self, program: &Address) -> (owned: bool)
        ensures
            owned == (self.owner@ == program@),
    {
        self.owner == *program
    }

    /// Whether the account is a token account record of `token_program`.
    pub fn is_token_account(&self, token_program: &Address) -> (ok: bool)
        ensures
            ok == is_token_account(*self, token_program@),
    {
        self.data.len() == token_account_size() && self.owned_by(token_program)
    }

    /// Whether the account is a mint record of `token_program`.
    pub fn is_mint(&self, token_program: &Address) -> (ok: bool)
        ensures
            ok == is_mint(*self, token_program@),
    {
        self.data.len() == mint_size() && self.owned_by(token_program)
    }

    /// The balance of a token account of the token ledger.
    pub fn token_amount(&self) -> (r: Result<u64, AmmError>)
        ensures
            r == read_token_amount(*self),
    {
        let ledger = token_program();
        if !self.is_token_account(&ledger) {
            return Err(AmmError::AccountShapeViolation);
        }
        proof {
            lemma_le_value_8(self.data@.subrange(64, 72));
        }
        Ok(read_u64_le(self.data.as_slice(), TOKEN_AMOUNT_OFFSET))
    }

    /// The supply of a mint of the token ledger.
    pub fn mint_supply(&self) -> (r: Result<u64, AmmError>)
        ensures
            r == read_mint_supply(*self),
    {
        let ledger = token_program();
        if !self.is_mint(&ledger) {
            return Err(AmmError::AccountShapeViolation);
        }
        proof {
            lemma_le_value_8(self.data@.subrange(36, 44));
        }
        Ok(read_u64_le(self.data.as_slice(), MINT_SUPPLY_OFFSET))
    }
}

} // verus!
