//! The pool record: the one persistent account of a pool, its byte layout and
//! its lifecycle.

use crate::account::Account;
use crate::address::{id, program_id, zero_address, Address};
use crate::bytes::{
    le_bytes, le_value, lemma_le_bytes_len, lemma_le_bytes_of_value, lemma_le_value_2,
    lemma_le_value_8, lemma_le_value_of_bytes_u16, lemma_le_value_of_bytes_u64, push_bytes,
    push_u16_le, push_u64_le, read_array, read_u16_le, read_u64_le,
};
use crate::error::AmmError;
use crate::pda::{build_config_seeds, config_seeds, seed_list};
use vstd::prelude::*;

verus! {

/// The lifecycle of a pool.
#[derive(Clone, Copy, Debug, PartialEq, Eq, Structural)]
pub enum AmmState {
    /// The record exists but holds nothing yet.
    Uninitialized,
    /// The pool trades and takes liquidity.
    Initialized,
    /// The pool neither trades nor takes liquidity.
    Disabled,
    /// The pool only lets liquidity out.
    WithdrawOnly,
}

impl AmmState {
    /// The byte that stands for the state in the record.
    pub open spec fn code(self) -> u8 {
        match self {
            AmmState::Uninitialized => 0,
            AmmState::Initialized => 1,
            AmmState::Disabled => 2,
            AmmState::WithdrawOnly => 3,
        }
    }

    /// The byte that stands for the state in the record.
    pub fn as_u8(self) -> (code: u8)
        ensures
            code == self.code(),
    {
        match self {
            AmmState::Uninitialized => 0,
            AmmState::Initialized => 1,
            AmmState::Disabled => 2,
            AmmState::WithdrawOnly => 3,
        }
    }

    /// The state a byte stands for, if any.
    pub fn from_u8(code: u8) -> (state: Option<AmmState>)
        ensures
            code <= 3 <==> state is Some,
            state is Some ==> state->Some_0.code() == code,
    {
        match code {
            0 => Some(AmmState::Uninitialized),
            1 => Some(AmmState::Initialized),
            2 => Some(AmmState::Disabled),
            3 => Some(AmmState::WithdrawOnly),
            _ => None,
        }
    }
}

/// What a pool record says, as plain values.
pub struct PoolConfig {
    /// The lifecycle state, as its byte.
    pub state: u8,
    /// The number that tells pools of the same two mints apart.
    pub seed: u64,
    /// The administrator; all zero when there is none.
    pub authority: Seq<u8>,
    /// The mint of the first asset.
    pub mint_x: Seq<u8>,
    /// The mint of the second asset.
    pub mint_y: Seq<u8>,
    /// The swap fee in basis points.
    pub fee_bps: u16,
    /// The bump that makes the record's own address valid.
    pub config_bump: u8,
}

impl PoolConfig {
    /// The three addresses have 32 bytes each.
    pub open spec fn well_formed(self) -> bool {
        self.authority.len() == 32 && self.mint_x.len() == 32 && self.mint_y.len() == 32
    }

    /// The fee is below one hundred percent and the state is one of the four.
    pub open spec fn valid(self) -> bool {
        self.well_formed() && self.fee_bps < 10_000 && self.state <= 3
    }

    /// The seeds that derive the record's address, and with which the record
    /// authorises what is done in its name.
    pub open spec fn signer_seeds(self) -> Seq<Seq<u8>> {
        config_seeds(self.seed, self.mint_x, self.mint_y, self.config_bump)
    }
}

/// The record that the first 108 of `bytes` spell.
pub open spec fn config_from_bytes(bytes: Seq<u8>) -> PoolConfig
    recommends
        bytes.len() >= 108,
{
    PoolConfig {
        state: bytes[0],
        seed: le_value(bytes.subrange(1, 9)) as u64,
        authority: bytes.subrange(9, 41),
        mint_x: bytes.subrange(41, 73),
        mint_y: bytes.subrange(73, 105),
        fee_bps: le_value(bytes.subrange(105, 107)) as u16,
        config_bump: bytes[107],
    }
}

/// The 108 bytes that spell `config`.
pub open spec fn config_to_bytes(config: PoolConfig) -> Seq<u8> {
    seq![config.state] + le_bytes(config.seed as nat, 8) + config.authority + config.mint_x
        + config.mint_y + le_bytes(config.fee_bps as nat, 2) + seq![config.config_bump]
}

/// What the checked loads ask of an account: the record's exact length, and
/// this program as the owner.
pub open spec fn config_account_check(account: Account) -> Result<(), AmmError> {
    if account.data@.len() != 108 {
        Err(AmmError::AccountShapeViolation)
    } else if account.owner@ != program_id() {
        Err(AmmError::AddressMismatch)
    } else {
        Ok(())
    }
}

/// Spelling a record and reading it back gives the record.
pub proof fn lemma_config_bytes_round_trip(config: PoolConfig)
    requires
        config.well_formed(),
    ensures
        config_to_bytes(config).len() == 108,
        config_from_bytes(config_to_bytes(config)) == config,
{
    let bytes = config_to_bytes(config);
    lemma_le_bytes_len(config.seed as nat, 8);
    lemma_le_bytes_len(config.fee_bps as nat, 2);
    lemma_le_value_of_bytes_u64(config.seed);
    lemma_le_value_of_bytes_u16(config.fee_bps);
    assert(bytes.subrange(1, 9) =~= le_bytes(config.seed as nat, 8));
    assert(bytes.subrange(9, 41) =~= config.authority);
    assert(bytes.subrange(41, 73) =~= config.mint_x);
    assert(bytes.subrange(73, 105) =~= config.mint_y);
    assert(bytes.subrange(105, 107) =~= le_bytes(config.fee_bps as nat, 2));
}

/// Reading a record and spelling it again gives the bytes read.
pub proof fn lemma_config_read_round_trip(bytes: Seq<u8>)
    requires
        bytes.len() >= 108,
    ensures
        config_from_bytes(bytes).well_formed(),
        config_to_bytes(config_from_bytes(bytes)) == bytes.take(108),
{
    let config = config_from_bytes(bytes);
    lemma_le_value_8(bytes.subrange(1, 9));
    lemma_le_value_2(bytes.subrange(105, 107));
    lemma_le_bytes_of_value(bytes.subrange(1, 9));
    lemma_le_bytes_of_value(bytes.subrange(105, 107));
    assert(config_to_bytes(config) =~= bytes.take(108));
}

/// A pool record.
#[derive(Clone, Copy, Debug, PartialEq, Eq)]
pub struct Config {
    state: u8,
    seed: u64,
    authority: Address,
    mint_x: Address,
    mint_y: Address,
    fee: u16,
    config_bump: u8,
}

impl View for Config {
    type V = PoolConfig;

    closed spec fn view(&self) -> PoolConfig {
        PoolConfig {
            state: self.state,
            seed: self.seed,
            authority: self.authority@,
            mint_x: self.mint_x@,
            mint_y: self.mint_y@,
            fee_bps: self.fee,
            config_bump: self.config_bump,
        }
    }
}

impl Config {
    /// The length of a pool record: 1 + 8 + 32 + 32 + 32 + 2 + 1 bytes, no padding.
    pub const LEN: usize = 108;

    /// Every record holds three 32-byte addresses.
    pub proof fn lemma_well_formed(&self)
        ensures
            self@.well_formed(),
    {
    }

    /// Reads the record that the first 108 of `bytes` spell, with no check
    /// but on the length the caller vouches for.
    pub fn from_bytes_unchecked(bytes: &[u8]) -> (config: Config)
        requires
            bytes@.len() >= 108,
        ensures
            config@ == config_from_bytes(bytes@),
    {
        proof {
            lemma_le_value_8(bytes@.subrange(1, 9));
            lemma_le_value_2(bytes@.subrange(105, 107));
        }
        Config {
            state: bytes[0],
            seed: read_u64_le(bytes, 1),
            authority: Address { bytes: read_array::<32>(bytes, 9) },
            mint_x: Address { bytes: read_array::<32>(bytes, 41) },
            mint_y: Address { bytes: read_array::<32>(bytes, 73) },
            fee: read_u16_le(bytes, 105),
            config_bump: bytes[107],
        }
    }

    /// The 108 bytes of the record.
    pub fn to_bytes(&self) -> (bytes: Vec<u8>)
        ensures
            bytes@ == config_to_bytes(self@),
            bytes@.len() == 108,
    {
        let mut out: Vec<u8> = Vec::new();
        out.push(self.state);
        push_u64_le(&mut out, self.seed);
        push_bytes(&mut out, &self.authority.bytes);
        push_bytes(&mut out, &self.mint_x.bytes);
        push_bytes(&mut out, &self.mint_y.bytes);
        push_u16_le(&mut out, self.fee);
        out.push(self.config_bump);
        proof {
            assert(out@ =~= config_to_bytes(self@));
            lemma_config_bytes_round_trip(self@);
        }
        out
    }

    /// Loads the record of an account that has the record's length and is
    /// owned by this program.
    pub fn load(account: &Account) -> (r: Result<Config, AmmError>)
        ensures
            r is Ok <==> config_account_check(*account) is Ok,
            r is Err ==> config_account_check(*account) == Err::<(), AmmError>(r->Err_0),
            r is Ok ==> r->Ok_0@ == config_from_bytes(account.data@),
    {
        if account.data_len() != Self::LEN {
            return Err(AmmError::AccountShapeViolation);
        }
        if !check_owner(account) {
            return Err(AmmError::AddressMismatch);
        }
        Ok(Self::from_bytes_unchecked(account.data.as_slice()))
    }

    /// Loads the record as `load` does; for a caller that has made sure
    /// nothing else is changing the account.
    pub fn load_unchecked(account: &Account) -> (r: Result<Config, AmmError>)
        ensures
            r is Ok <==> config_account_check(*account) is Ok,
            r is Err ==> config_account_check(*account) == Err::<(), AmmError>(r->Err_0),
            r is Ok ==> r->Ok_0@ == config_from_bytes(account.data@),
    {
        Self::load(account)
    }

    /// Loads the record in order to change it; `store` writes the changed
    /// record back.
    pub fn load_mut(account: &Account) -> (r: Result<Config, AmmError>)
        ensures
            r is Ok <==> config_account_check(*account) is Ok,
            r is Err ==> config_account_check(*account) == Err::<(), AmmError>(r->Err_0),
            r is Ok ==> r->Ok_0@ == config_from_bytes(account.data@),
    {
        Self::load(account)
    }

    /// Loads the record in order to fill it for the first time: only the
    /// length is checked, not the owner.
    pub fn load_mut_unchecked(account: &Account) -> (r: Result<Config, AmmError>)
        ensures
            r is Ok <==> account.data@.len() == 108,
            r is Err ==> r->Err_0 == AmmError::AccountShapeViolation,
            r is Ok ==> r->Ok_0@ == config_from_bytes(account.data@),
    {
        if account.data_len() != Self::LEN {
            return Err(AmmError::AccountShapeViolation);
        }
        Ok(Self::from_bytes_unchecked(account.data.as_slice()))
    }

    /// Writes the record into an account that has the record's length and is
    /// owned by this program; any other account is left as it is.
    pub fn store(&self, account: &mut Account) -> (r: Result<(), AmmError>)
        ensures
            r == config_account_check(*old(account)),
            final(account).address == old(account).address,
            final(account).owner == old(account).owner,
            final(account).is_signer == old(account).is_signer,
            r is Ok ==> final(account).data@ == config_to_bytes(self@),
            r is Err ==> final(account).data@ == old(account).data@,
    {
        if account.data_len() != Self::LEN {
            return Err(AmmError::AccountShapeViolation);
        }
        if !check_owner(account) {
            return Err(AmmError::AddressMismatch);
        }
        account.data = self.to_bytes();
        Ok(())
    }

    /// The lifecycle state, as its byte.
    pub fn state(&self) -> (state: u8)
        ensures
            state == self@.state,
    {
        self.state
    }

    /// The number that tells pools of the same two mints apart.
    pub fn seed(&self) -> (seed: u64)
        ensures
            seed == self@.seed,
    {
        self.seed
    }

    /// The administrator's address, all zero when there is none.
    pub fn authority(&self) -> (authority: &Address)
        ensures
            authority@ == self@.authority,
    {
        &self.authority
    }

    /// The mint of the first asset.
    pub fn mint_x(&self) -> (mint: &Address)
        ensures
            mint@ == self@.mint_x,
    {
        &self.mint_x
    }

    /// The mint of the second asset.
    pub fn mint_y(&self) -> (mint: &Address)
        ensures
            mint@ == self@.mint_y,
    {
        &self.mint_y
    }

    /// The swap fee in basis points.
    pub fn fee(&self) -> (fee: u16)
        ensures
            fee == self@.fee_bps,
    {
        self.fee
    }

    /// The bump of the record's own address.
    pub fn config_bump(&self) -> (bump: [u8; 1])
        ensures
            bump@ == seq![self@.config_bump],
    {
        let bump: [u8; 1] = [self.config_bump];
        proof {
            assert(bump@ =~= seq![self@.config_bump]);
        }
        bump
    }

    /// Sets the lifecycle state. A byte of 3 or more is refused and the record
    /// stays as it is, so this setter never yields `WithdrawOnly`.
    pub fn set_state(&mut self, state: u8) -> (r: Result<(), AmmError>)
        ensures
            r is Ok <==> state < AmmState::WithdrawOnly.code(),
            r is Err ==> r->Err_0 == AmmError::InvalidArgument && final(self)@ == old(self)@,
            r is Ok ==> final(self)@ == (PoolConfig { state, ..old(self)@ }),
            old(self)@.valid() ==> final(self)@.valid(),
    {
        if state >= AmmState::WithdrawOnly.as_u8() {
            return Err(AmmError::InvalidArgument);
        }
        self.state = state;
        Ok(())
    }

    /// Sets the seed number.
    pub fn set_seed(&mut self, seed: u64)
        ensures
            final(self)@ == (PoolConfig { seed, ..old(self)@ }),
    {
        self.seed = seed;
    }

    /// Sets the administrator.
    pub fn set_authority(&mut self, authority: Address)
        ensures
            final(self)@ == (PoolConfig { authority: authority@, ..old(self)@ }),
    {
        self.authority = authority;
    }

    /// Sets the mint of the first asset.
    pub fn set_mint_x(&mut self, mint_x: Address)
        ensures
            final(self)@ == (PoolConfig { mint_x: mint_x@, ..old(self)@ }),
    {
        self.mint_x = mint_x;
    }

    /// Sets the mint of the second asset.
    pub fn set_mint_y(&mut self, mint_y: Address)
        ensures
            final(self)@ == (PoolConfig { mint_y: mint_y@, ..old(self)@ }),
    {
        self.mint_y = mint_y;
    }

    /// Sets the swap fee. A fee of 10000 basis points or more is refused and
    /// the record stays as it is.
    pub fn set_fee(&mut self, fee: u16) -> (r: Result<(), AmmError>)
        ensures
            r is Ok <==> fee < 10_000,
            r is Err ==> r->Err_0 == AmmError::InvalidArgument && final(self)@ == old(self)@,
            r is Ok ==> final(self)@ == (PoolConfig { fee_bps: fee, ..old(self)@ }),
            old(self)@.valid() ==> final(self)@.valid(),
    {
        if fee >= 10_000 {
            return Err(AmmError::InvalidArgument);
        }
        self.fee = fee;
        Ok(())
    }

    /// Sets the bump of the record's own address.
    pub fn set_config_bump(&mut self, config_bump: [u8; 1])
        ensures
            final(self)@ == (PoolConfig { config_bump: config_bump@[0], ..old(self)@ }),
    {
        self.config_bump = config_bump[0];
    }

    /// Fills the record of a new pool: the state becomes `Initialized`, then
    /// the fields are set in the order of the parameters. A fee of 10000 basis
    /// points or more is refused at its turn, after the state, the seed, the
    /// administrator and the mints were set.
    pub fn set_inner(
        &mut self,
        seed: u64,
        authority: Address,
        mint_x: Address,
        mint_y: Address,
        fee: u16,
        config_bump: [u8; 1],
    ) -> (r: Result<(), AmmError>)
        ensures
            r is Ok <==> fee < 10_000,
            r is Ok ==> final(self)@.valid(),
            r is Ok ==> final(self)@ == initial_config(
                seed,
                authority@,
                mint_x@,
                mint_y@,
                fee,
                config_bump@[0],
            ),
            r is Err ==> r->Err_0 == AmmError::InvalidArgument && final(self)@ == (PoolConfig {
                fee_bps: old(self)@.fee_bps,
                config_bump: old(self)@.config_bump,
                ..initial_config(seed, authority@, mint_x@, mint_y@, fee, config_bump@[0])
            }),
    {
        match self.set_state(AmmState::Initialized.as_u8()) {
            Ok(()) => {},
            Err(e) => {
                return Err(e);
            },
        }
        self.set_seed(seed);
        self.set_authority(authority);
        self.set_mint_x(mint_x);
        self.set_mint_y(mint_y);
        match self.set_fee(fee) {
            Ok(()) => {},
            Err(e) => {
                return Err(e);
            },
        }
        self.set_config_bump(config_bump);
        Ok(())
    }

    /// The administrator, if one is set: the all-zero address stands for none.
    pub fn has_authority(&self) -> (authority: Option<Address>)
        ensures
            authority is None <==> self@.authority == zero_address(),
            authority is Some ==> authority->Some_0@ == self@.authority,
    {
        let none = Address::default();
        if self.authority == none {
            None
        } else {
            Some(self.authority)
        }
    }

    /// The seeds with which the record authorises what is done in its name:
    /// the same list that derives its address.
    pub fn signer_seeds(&self) -> (seeds: Vec<Vec<u8>>)
        ensures
            seed_list(seeds@) == self@.signer_seeds(),
    {
        build_config_seeds(self.seed, &self.mint_x, &self.mint_y, self.config_bump)
    }

    /// A record with every byte zero: what a newly created account holds.
    pub fn zeroed() -> (config: Config)
        ensures
            config@ == (PoolConfig {
                state: 0,
                seed: 0,
                authority: zero_address(),
                mint_x: zero_address(),
                mint_y: zero_address(),
                fee_bps: 0,
                config_bump: 0,
            }),
    {
        Config {
            state: 0,
            seed: 0,
            authority: Address::default(),
            mint_x: Address::default(),
            mint_y: Address::default(),
            fee: 0,
            config_bump: 0,
        }
    }
}

/// The record of a newly initialised pool.
pub open spec fn initial_config(
    seed: u64,
    authority: Seq<u8>,
    mint_x: Seq<u8>,
    mint_y: Seq<u8>,
    fee: u16,
    config_bump: u8,
) -> PoolConfig {
    PoolConfig {
        state: AmmState::Initialized.code(),
        seed,
        authority,
        mint_x,
        mint_y,
        fee_bps: fee,
        config_bump,
    }
}

/// Whether this program owns the account.
fn check_owner(account: &Account) -> (owned: bool)
    ensures
        owned == (account.owner@ == program_id()),
{
    let own = id();
    account.owned_by(&own)
}

} // verus!
