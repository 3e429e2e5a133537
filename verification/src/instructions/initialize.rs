//! Initialize: create the pool record and the mint of the pool shares.

use crate::account::Account;
use crate::address::{id, program_id, token_program, token_program_id, zero_address, Address};
use crate::bytes::{
    le_bytes, le_value, lemma_le_bytes_len, lemma_le_bytes_of_value, lemma_le_value_2,
    lemma_le_value_8, lemma_le_value_of_bytes_u16, lemma_le_value_of_bytes_u64, push_bytes,
    push_u16_le, push_u64_le, read_array, read_u16_le, read_u64_le,
};
use crate::effect::{completed_plan, refused_plan, Effect, EffectView, Plan, PlanView};
use crate::error::AmmError;
use crate::pda::{
    build_config_seeds, build_mint_lp_seeds, config_seeds, mint_lp_seeds, program_address,
    vault_address,
};
use crate::state::{
    config_from_bytes, config_to_bytes, initial_config, lemma_config_bytes_round_trip, AmmState,
    Config, PoolConfig,
};
use crate::validate::{check_initialize_accounts, initialize_accounts_check, vaults_check};
use vstd::prelude::*;

verus! {

/// The accounts of an initialisation, by role.
pub struct InitializeAccounts<'a> {
    /// Who creates the pool and pays for its accounts; must have signed.
    pub initializer: &'a Account,
    /// The mint of the pool shares, yet to be created.
    pub mint_lp: &'a Account,
    /// The pool record, yet to be created.
    pub config: &'a Account,
    /// The account-creation service.
    pub system_program: &'a Account,
    /// The token ledger.
    pub token_program: &'a Account,
}

impl<'a> InitializeAccounts<'a> {
    /// The roles as the entries of `accounts`, in the instruction's order.
    pub open spec fn of(accounts: Seq<Account>) -> Self {
        InitializeAccounts {
            initializer: &accounts[0],
            mint_lp: &accounts[1],
            config: &accounts[2],
            system_program: &accounts[3],
            token_program: &accounts[4],
        }
    }

    /// The creation of the pool record's account: 108 bytes, owned by this
    /// program, in the name of the address the record's seeds derive.
    pub open spec fn create_config(self, fields: InitializeData, lamports: u64) -> EffectView {
        EffectView::CreateAccount {
            from: self.initializer.address@,
            to: self.config.address@,
            lamports,
            space: 108,
            owner: program_id(),
            signer_seeds: fields.config_seeds(),
        }
    }

    /// The writing of the new record.
    pub open spec fn store_config(self, fields: InitializeData) -> EffectView {
        EffectView::StoreConfig {
            account: self.config.address@,
            config: fields.record(),
        }
    }

    /// The creation of the account of the mint of the pool shares: 82 bytes,
    /// owned by the token ledger, in the name of the address its seeds derive.
    pub open spec fn create_mint(self, fields: InitializeData, lamports: u64) -> EffectView {
        EffectView::CreateAccount {
            from: self.initializer.address@,
            to: self.mint_lp.address@,
            lamports,
            space: 82,
            owner: token_program_id(),
            signer_seeds: mint_lp_seeds(
                self.config.address@,
                fields.lp_bump,
            ),
        }
    }

    /// The making of the mint: no supply, six decimal places, the pool record
    /// as the only one who may mint, nobody who may freeze.
    pub open spec fn initialize_mint(self) -> EffectView {
        EffectView::InitializeMint {
            mint: self.mint_lp.address@,
            decimals: 6,
            mint_authority: self.config.address@,
            freeze_authority: None,
        }
    }

    /// What the initialisation asks of the ledger, given the least balance
    /// the ledger wants for an account of the record's size and for one of a
    /// mint's size (`None` where the ledger's rent gives none).
    pub open spec fn plan(
        self,
        fields: InitializeData,
        config_lamports: Option<u64>,
        mint_lamports: Option<u64>,
    ) -> PlanView {
        match config_lamports {
            None => refused_plan(AmmError::ArithmeticFailure),
            Some(for_config) => if fields.fee >= 10_000 {
                PlanView {
                    effects: seq![self.create_config(fields, for_config)],
                    outcome: Err(AmmError::InvalidArgument),
                }
            } else {
                match mint_lamports {
                    None => PlanView {
                        effects: seq![self.create_config(fields, for_config), self.store_config(fields)],
                        outcome: Err(AmmError::ArithmeticFailure),
                    },
                    Some(for_mint) => completed_plan(
                        seq![
                            self.create_config(fields, for_config),
                            self.store_config(fields),
                            self.create_mint(fields, for_mint),
                            self.initialize_mint(),
                        ],
                    ),
                }
            },
        }
    }

    /// Names the accounts of an initialisation and checks them.
    pub fn try_from(accounts: &'a [Account]) -> (r: Result<Self, AmmError>)
        ensures
            r is Ok <==> initialize_accounts_check(accounts@) is Ok,
            r is Err ==> initialize_accounts_check(accounts@) == Err::<(), AmmError>(r->Err_0),
            r is Ok ==> r->Ok_0 == Self::of(accounts@),
    {
        match check_initialize_accounts(accounts) {
            Ok(()) => {},
            Err(e) => {
                return Err(e);
            },
        }
        Ok(
            InitializeAccounts {
                initializer: &accounts[0],
                mint_lp: &accounts[1],
                config: &accounts[2],
                system_program: &accounts[3],
                token_program: &accounts[4],
            },
        )
    }
}

/// The payload of an initialisation: 108 bytes, or 76 without the
/// administrator, who is then the all-zero address.
#[derive(Clone, Copy, Debug, PartialEq, Eq)]
pub struct InitializeInstructionData {
    /// The number that tells pools of the same two mints apart.
    pub seed: u64,
    /// The swap fee in basis points.
    pub fee: u16,
    /// The mint of the first asset.
    pub mint_x: [u8; 32],
    /// The mint of the second asset.
    pub mint_y: [u8; 32],
    /// The bump of the pool record's address.
    pub config_bump: [u8; 1],
    /// The bump of the address of the mint of the pool shares.
    pub lp_bump: [u8; 1],
    /// The administrator; all zero for none.
    pub authority: [u8; 32],
}

/// The payload of an initialisation, as plain values.
pub struct InitializeData {
    pub seed: u64,
    pub fee: u16,
    pub mint_x: Seq<u8>,
    pub mint_y: Seq<u8>,
    pub config_bump: u8,
    pub lp_bump: u8,
    pub authority: Seq<u8>,
}

impl View for InitializeInstructionData {
    type V = InitializeData;

    open spec fn view(&self) -> InitializeData {
        InitializeData {
            seed: self.seed,
            fee: self.fee,
            mint_x: self.mint_x@,
            mint_y: self.mint_y@,
            config_bump: self.config_bump@[0],
            lp_bump: self.lp_bump@[0],
            authority: self.authority@,
        }
    }
}

impl InitializeData {
    /// The three addresses have 32 bytes each.
    pub open spec fn well_formed(self) -> bool {
        self.mint_x.len() == 32 && self.mint_y.len() == 32 && self.authority.len() == 32
    }

    /// The record that the initialisation writes.
    pub open spec fn record(self) -> PoolConfig {
        initial_config(
            self.seed,
            self.authority,
            self.mint_x,
            self.mint_y,
            self.fee,
            self.config_bump,
        )
    }

    /// The seeds under which the pool record is created.
    pub open spec fn config_seeds(self) -> Seq<Seq<u8>> {
        config_seeds(self.seed, self.mint_x, self.mint_y, self.config_bump)
    }
}

/// The fields that a payload of 108 or of 76 bytes spells.
pub open spec fn parse_initialize(data: Seq<u8>) -> InitializeData
    recommends
        data.len() == 108 || data.len() == 76,
{
    InitializeData {
        seed: le_value(data.subrange(0, 8)) as u64,
        fee: le_value(data.subrange(8, 10)) as u16,
        mint_x: data.subrange(10, 42),
        mint_y: data.subrange(42, 74),
        config_bump: data[74],
        lp_bump: data[75],
        authority: if data.len() == 108 {
            data.subrange(76, 108)
        } else {
            zero_address()
        },
    }
}

/// Decoding an initialisation: the length, then that the two mints differ.
pub open spec fn decode_initialize(data: Seq<u8>) -> Result<InitializeData, AmmError> {
    if data.len() != 108 && data.len() != 76 {
        Err(AmmError::MalformedInput)
    } else {
        let fields = parse_initialize(data);
        if fields.mint_x == fields.mint_y {
            Err(AmmError::InvalidArgument)
        } else {
            Ok(fields)
        }
    }
}

/// The 108 bytes that spell the fields.
pub open spec fn encode_initialize(fields: InitializeData) -> Seq<u8> {
    le_bytes(fields.seed as nat, 8) + le_bytes(fields.fee as nat, 2) + fields.mint_x + fields.mint_y
        + seq![fields.config_bump] + seq![fields.lp_bump] + fields.authority
}

impl InitializeInstructionData {
    /// The payload length with the administrator.
    pub const LEN_WITH_AUTHORITY: usize = 108;

    /// The payload length without the administrator.
    pub const LEN: usize = 76;

    /// Decodes the payload of an initialisation.
    pub fn try_from(data: &[u8]) -> (r: Result<Self, AmmError>)
        ensures
            r is Ok ==> decode_initialize(data@) == Ok::<InitializeData, AmmError>(r->Ok_0@),
            r is Err ==> decode_initialize(data@) == Err::<InitializeData, AmmError>(r->Err_0),
    {
        if data.len() != Self::LEN_WITH_AUTHORITY && data.len() != Self::LEN {
            return Err(AmmError::MalformedInput);
        }
        proof {
            lemma_le_value_8(data@.subrange(0, 8));
            lemma_le_value_2(data@.subrange(8, 10));
        }
        let authority: [u8; 32] = if data.len() == Self::LEN_WITH_AUTHORITY {
            read_array::<32>(data, 76)
        } else {
            [0u8; 32]
        };
        let fields = InitializeInstructionData {
            seed: read_u64_le(data, 0),
            fee: read_u16_le(data, 8),
            mint_x: read_array::<32>(data, 10),
            mint_y: read_array::<32>(data, 42),
            config_bump: [data[74]],
            lp_bump: [data[75]],
            authority,
        };
        proof {
            assert(fields@.authority =~= parse_initialize(data@).authority);
        }
        let mint_x = Address::new_from_array(fields.mint_x);
        let mint_y = Address::new_from_array(fields.mint_y);
        if mint_x == mint_y {
            return Err(AmmError::InvalidArgument);
        }
        Ok(fields)
    }

    /// The payload, with the administrator, that spells these fields.
    pub fn to_bytes(&self) -> (data: Vec<u8>)
        ensures
            data@ == encode_initialize(self@),
    {
        let mut out: Vec<u8> = Vec::new();
        push_u64_le(&mut out, self.seed);
        push_u16_le(&mut out, self.fee);
        push_bytes(&mut out, &self.mint_x);
        push_bytes(&mut out, &self.mint_y);
        out.push(self.config_bump[0]);
        out.push(self.lp_bump[0]);
        push_bytes(&mut out, &self.authority);
        proof {
            assert(out@ =~= encode_initialize(self@));
        }
        out
    }
}

/// What is asked before an initialisation is accepted: the accounts, then the
/// payload.
pub open spec fn initialize_check(data: Seq<u8>, accounts: Seq<Account>) -> Result<(), AmmError> {
    match initialize_accounts_check(accounts) {
        Err(e) => Err(e),
        Ok(()) => match decode_initialize(data) {
            Err(e) => Err(e),
            Ok(_) => Ok(()),
        },
    }
}

/// The number of decimal places of the pool shares.
pub const LP_DECIMALS: u8 = 6;

/// An initialisation that passed its checks.
pub struct Initialize<'a> {
    pub accounts: InitializeAccounts<'a>,
    pub instruction_data: InitializeInstructionData,
}

impl<'a> Initialize<'a> {
    /// The byte that selects this instruction.
    pub const DISCRIMINATOR: u8 = 0;

    /// Builds an initialisation from its payload and its accounts: the
    /// accounts are checked first, then the payload.
    pub fn try_from(data: &[u8], accounts: &'a [Account]) -> (r: Result<Self, AmmError>)
        ensures
            r is Ok <==> initialize_check(data@, accounts@) is Ok,
            r is Err ==> initialize_check(data@, accounts@) == Err::<(), AmmError>(r->Err_0),
            r is Ok ==> r->Ok_0.accounts == InitializeAccounts::of(accounts@),
            r is Ok ==> decode_initialize(data@) == Ok::<InitializeData, AmmError>(
                r->Ok_0.instruction_data@,
            ),
    {
        let accounts = match InitializeAccounts::try_from(accounts) {
            Ok(accounts) => accounts,
            Err(e) => {
                return Err(e);
            },
        };
        let instruction_data = match InitializeInstructionData::try_from(data) {
            Ok(fields) => fields,
            Err(e) => {
                return Err(e);
            },
        };
        Ok(Initialize { accounts, instruction_data })
    }

    /// Plans the initialisation: create the record's account, write the
    /// record, create the mint's account, make the mint.
    pub fn process(&self, config_lamports: Option<u64>, mint_lamports: Option<u64>) -> (plan: Plan)
        ensures
            plan@ == self.accounts.plan(self.instruction_data@, config_lamports, mint_lamports),
    {
        let for_config: u64 = match config_lamports {
            Some(lamports) => lamports,
            None => {
                return Plan::refused(AmmError::ArithmeticFailure);
            },
        };
        let mint_x = Address::new_from_array(self.instruction_data.mint_x);
        let mint_y = Address::new_from_array(self.instruction_data.mint_y);
        let authority = Address::new_from_array(self.instruction_data.authority);
        let mut effects: Vec<Effect> = Vec::new();
        effects.push(
            Effect::CreateAccount {
                from: self.accounts.initializer.address,
                to: self.accounts.config.address,
                lamports: for_config,
                space: 108,
                owner: id(),
                signer_seeds: build_config_seeds(
                    self.instruction_data.seed,
                    &mint_x,
                    &mint_y,
                    self.instruction_data.config_bump[0],
                ),
            },
        );
        let mut record = Config::zeroed();
        match record.set_inner(
            self.instruction_data.seed,
            authority,
            mint_x,
            mint_y,
            self.instruction_data.fee,
            self.instruction_data.config_bump,
        ) {
            Ok(()) => {},
            Err(e) => {
                let plan = Plan { effects, outcome: Err(e) };
                proof {
                    assert(plan@.effects =~= self.accounts.plan(
                        self.instruction_data@,
                        config_lamports,
                        mint_lamports,
                    ).effects);
                }
                return plan;
            },
        }
        effects.push(Effect::StoreConfig { account: self.accounts.config.address, config: record });
        let for_mint: u64 = match mint_lamports {
            Some(lamports) => lamports,
            None => {
                let plan = Plan { effects, outcome: Err(AmmError::ArithmeticFailure) };
                proof {
                    assert(plan@.effects =~= self.accounts.plan(
                        self.instruction_data@,
                        config_lamports,
                        mint_lamports,
                    ).effects);
                }
                return plan;
            },
        };
        effects.push(
            Effect::CreateAccount {
                from: self.accounts.initializer.address,
                to: self.accounts.mint_lp.address,
                lamports: for_mint,
                space: 82,
                owner: token_program(),
                signer_seeds: build_mint_lp_seeds(
                    &self.accounts.config.address,
                    self.instruction_data.lp_bump[0],
                ),
            },
        );
        effects.push(
            Effect::InitializeMint {
                mint: self.accounts.mint_lp.address,
                decimals: LP_DECIMALS,
                mint_authority: self.accounts.config.address,
                freeze_authority: None,
            },
        );
        let plan = Plan { effects, outcome: Ok(()) };
        proof {
            assert(plan@.effects =~= self.accounts.plan(
                        self.instruction_data@,
                        config_lamports,
                        mint_lamports,
                    ).effects);
        }
        plan
    }
}

/// A payload of any length but 108 and 76 is malformed; a payload that
/// decodes is spelt again by the fields it decoded to: byte for byte where it
/// has 108 bytes, and followed by the 32 zero bytes of the absent
/// administrator where it has 76.
pub proof fn lemma_initialize_round_trip(data: Seq<u8>)
    ensures
        data.len() != 108 && data.len() != 76 ==> decode_initialize(data) == Err::<
            InitializeData,
            AmmError,
        >(AmmError::MalformedInput),
        decode_initialize(data) is Ok ==> decode_initialize(data)->Ok_0.well_formed(),
        decode_initialize(data) is Ok && data.len() == 108 ==> encode_initialize(
            decode_initialize(data)->Ok_0,
        ) == data,
        decode_initialize(data) is Ok && data.len() == 76 ==> encode_initialize(
            decode_initialize(data)->Ok_0,
        ) == data + zero_address(),
{
    if decode_initialize(data) is Ok {
        let fields = decode_initialize(data)->Ok_0;
        lemma_le_bytes_of_value(data.subrange(0, 8));
        lemma_le_bytes_of_value(data.subrange(8, 10));
        lemma_le_value_8(data.subrange(0, 8));
        lemma_le_value_2(data.subrange(8, 10));
        if data.len() == 108 {
            assert(encode_initialize(fields) =~= data);
        } else {
            assert(encode_initialize(fields) =~= data + zero_address());
        }
    }
}

/// Fields with two different mints are decoded from their own spelling.
pub proof fn lemma_initialize_decodes_encoding(fields: InitializeData)
    requires
        fields.well_formed(),
        fields.mint_x != fields.mint_y,
    ensures
        encode_initialize(fields).len() == 108,
        decode_initialize(encode_initialize(fields)) == Ok::<InitializeData, AmmError>(fields),
{
    let data = encode_initialize(fields);
    lemma_le_bytes_len(fields.seed as nat, 8);
    lemma_le_bytes_len(fields.fee as nat, 2);
    lemma_le_value_of_bytes_u64(fields.seed);
    lemma_le_value_of_bytes_u16(fields.fee);
    assert(data.subrange(0, 8) =~= le_bytes(fields.seed as nat, 8));
    assert(data.subrange(8, 10) =~= le_bytes(fields.fee as nat, 2));
    assert(data.subrange(10, 42) =~= fields.mint_x);
    assert(data.subrange(42, 74) =~= fields.mint_y);
    assert(data.subrange(76, 108) =~= fields.authority);
}

/// For every seed number, every two different mints and every fee below
/// 10000 basis points, an initialisation that the ledger's rent allows is
/// planned to the end, in four steps. The record it writes is in the state
/// `Initialized` and is valid, and the seeds that the record holds, which
/// derive its address whenever it is loaded again, are the seeds under which
/// its account is created.
pub proof fn lemma_initialize_record(
    roles: InitializeAccounts,
    fields: InitializeData,
    config_lamports: u64,
    mint_lamports: u64,
)
    requires
        fields.well_formed(),
        fields.mint_x != fields.mint_y,
        fields.fee < 10_000,
    ensures
        ({
            let plan = roles.plan(fields, Some(config_lamports), Some(mint_lamports));
            let record = fields.record();
            &&& plan.outcome is Ok
            &&& plan.effects.len() == 4
            &&& plan.effects[0] == roles.create_config(fields, config_lamports)
            &&& plan.effects[1] == (EffectView::StoreConfig {
                account: roles.config.address@,
                config: record,
            })
            &&& plan.effects[2] == roles.create_mint(fields, mint_lamports)
            &&& plan.effects[3] == roles.initialize_mint()
            &&& record.state == AmmState::Initialized.code()
            &&& record.valid()
            &&& record.mint_x != record.mint_y
            &&& record.signer_seeds() == plan.effects[0]->CreateAccount_signer_seeds
        }),
{
}

/// What is derived from a pool record loaded from the bytes an initialisation
/// wrote is what was derived when the pool was created. The loaded record is
/// the written one, so the seeds it holds are the seeds its account was created
/// under, and they derive the same address; the seeds of the mint of the pool
/// shares depend on the record's address and the bump alone; and the record's
/// mints give the same two vault addresses as the payload's. The vault check
/// of a later instruction on that record therefore accepts exactly the vaults
/// at the addresses derived from the payload's mints.
pub proof fn lemma_derivation_stable(
    roles: InitializeAccounts,
    fields: InitializeData,
    lamports: u64,
    config: Account,
    program: Account,
    vault_x: Account,
    vault_y: Account,
)
    requires
        fields.well_formed(),
        config.address@ == roles.config.address@,
        config.data@ == config_to_bytes(fields.record()),
        config.owner@ == program_id(),
    ensures
        config_from_bytes(config.data@) == fields.record(),
        config_from_bytes(config.data@).signer_seeds() == roles.create_config(
            fields,
            lamports,
        )->CreateAccount_signer_seeds,
        program_address(config_from_bytes(config.data@).signer_seeds(), program_id())
            == program_address(fields.config_seeds(), program_id()),
        mint_lp_seeds(config.address@, fields.lp_bump) == roles.create_mint(
            fields,
            lamports,
        )->CreateAccount_signer_seeds,
        vault_address(config.address@, program.address@, config_from_bytes(config.data@).mint_x)
            == vault_address(config.address@, program.address@, fields.mint_x),
        vault_address(config.address@, program.address@, config_from_bytes(config.data@).mint_y)
            == vault_address(config.address@, program.address@, fields.mint_y),
        vaults_check(config, program, vault_x, vault_y) is Ok <==> vault_address(
            config.address@,
            program.address@,
            fields.mint_x,
        ) == Some(vault_x.address@) && vault_address(
            config.address@,
            program.address@,
            fields.mint_y,
        ) == Some(vault_y.address@),
{
    lemma_config_bytes_round_trip(fields.record());
}

} // verus!
