//! Deposit: pay both assets into the vaults and receive pool shares.

use crate::account::Account;
use crate::bytes::{
    le_value, lemma_four_numbers, lemma_le_value_8, lemma_spelling_of_four, push_i64_le,
    push_u64_le, read_i64_le, read_u64_le, signed64, spell_four,
};
use crate::clock::{check_expiration, expiration_check, expired};
use crate::effect::{completed_plan, user_signed, Effect, EffectView, Plan, PlanView};
use crate::error::AmmError;
use crate::state::{config_account_check, config_from_bytes, AmmState, Config};
use crate::validate::{check_deposit_accounts, deposit_accounts_check};
use vstd::prelude::*;

verus! {

/// The accounts of a deposit, by role.
pub struct DepositAccounts<'a> {
    /// Who deposits; must have signed.
    pub user: &'a Account,
    /// The mint of the pool shares.
    pub mint_lp: &'a Account,
    /// The pool's vault of the first asset.
    pub vault_x: &'a Account,
    /// The pool's vault of the second asset.
    pub vault_y: &'a Account,
    /// The user's account of the first asset.
    pub user_x_ata: &'a Account,
    /// The user's account of the second asset.
    pub user_y_ata: &'a Account,
    /// The user's account of pool shares.
    pub user_lp_ata: &'a Account,
    /// The pool record.
    pub config: &'a Account,
    /// The token ledger.
    pub token_program: &'a Account,
}

impl<'a> DepositAccounts<'a> {
    /// The roles as the entries of `accounts`, in the instruction's order.
    pub open spec fn of(accounts: Seq<Account>) -> Self {
        DepositAccounts {
            user: &accounts[0],
            mint_lp: &accounts[1],
            vault_x: &accounts[2],
            vault_y: &accounts[3],
            user_x_ata: &accounts[4],
            user_y_ata: &accounts[5],
            user_lp_ata: &accounts[6],
            config: &accounts[7],
            token_program: &accounts[8],
        }
    }

    /// Names the accounts of a deposit and checks them.
    pub fn try_from(accounts: &'a [Account]) -> (r: Result<Self, AmmError>)
        ensures
            r is Ok <==> deposit_accounts_check(accounts@) is Ok,
            r is Err ==> deposit_accounts_check(accounts@) == Err::<(), AmmError>(r->Err_0),
            r is Ok ==> r->Ok_0 == Self::of(accounts@),
    {
        match check_deposit_accounts(accounts) {
            Ok(()) => {},
            Err(e) => {
                return Err(e);
            },
        }
        Ok(
            DepositAccounts {
                user: &accounts[0],
                mint_lp: &accounts[1],
                vault_x: &accounts[2],
                vault_y: &accounts[3],
                user_x_ata: &accounts[4],
                user_y_ata: &accounts[5],
                user_lp_ata: &accounts[6],
                config: &accounts[7],
                token_program: &accounts[8],
            },
        )
    }
}

/// The payload of a deposit: 32 bytes, four little-endian numbers.
#[derive(Clone, Copy, Debug, PartialEq, Eq, Structural)]
pub struct DepositInstructionData {
    /// How many pool shares to mint.
    pub amount: u64,
    /// How much of the first asset to pay in.
    pub max_x: u64,
    /// How much of the second asset to pay in.
    pub max_y: u64,
    /// The deadline, as Unix time; 0 for none.
    pub expiration: i64,
}

/// The fields that a payload of 32 bytes spells.
pub open spec fn parse_deposit(data: Seq<u8>) -> DepositInstructionData
    recommends
        data.len() == 32,
{
    DepositInstructionData {
        amount: le_value(data.subrange(0, 8)) as u64,
        max_x: le_value(data.subrange(8, 16)) as u64,
        max_y: le_value(data.subrange(16, 24)) as u64,
        expiration: signed64(le_value(data.subrange(24, 32))) as i64,
    }
}

/// Decoding a deposit: the length, then the amount, then the deadline.
pub open spec fn decode_deposit(data: Seq<u8>, clock: Option<i64>) -> Result<
    DepositInstructionData,
    AmmError,
> {
    if data.len() != 32 {
        Err(AmmError::MalformedInput)
    } else {
        let fields = parse_deposit(data);
        if fields.amount == 0 {
            Err(AmmError::InvalidArgument)
        } else {
            match expiration_check(fields.expiration, clock) {
                Err(e) => Err(e),
                Ok(()) => Ok(fields),
            }
        }
    }
}

/// The 32 bytes that spell the fields.
pub open spec fn encode_deposit(fields: DepositInstructionData) -> Seq<u8> {
    spell_four(fields.amount, fields.max_x, fields.max_y, fields.expiration)
}

impl DepositInstructionData {
    /// The payload length.
    pub const LEN: usize = 32;

    /// Decodes the payload of a deposit, given what the clock oracle says.
    pub fn try_from(data: &[u8], clock: Option<i64>) -> (r: Result<Self, AmmError>)
        ensures
            r == decode_deposit(data@, clock),
    {
        if data.len() != Self::LEN {
            return Err(AmmError::MalformedInput);
        }
        proof {
            lemma_le_value_8(data@.subrange(0, 8));
            lemma_le_value_8(data@.subrange(8, 16));
            lemma_le_value_8(data@.subrange(16, 24));
            lemma_le_value_8(data@.subrange(24, 32));
        }
        let fields = DepositInstructionData {
            amount: read_u64_le(data, 0),
            max_x: read_u64_le(data, 8),
            max_y: read_u64_le(data, 16),
            expiration: read_i64_le(data, 24),
        };
        if fields.amount == 0 {
            return Err(AmmError::InvalidArgument);
        }
        match check_expiration(fields.expiration, clock) {
            Ok(()) => Ok(fields),
            Err(e) => Err(e),
        }
    }

    /// The payload that spells these fields.
    pub fn to_bytes(&self) -> (data: Vec<u8>)
        ensures
            data@ == encode_deposit(*self),
    {
        let mut out: Vec<u8> = Vec::new();
        push_u64_le(&mut out, self.amount);
        push_u64_le(&mut out, self.max_x);
        push_u64_le(&mut out, self.max_y);
        push_i64_le(&mut out, self.expiration);
        proof {
            assert(out@ =~= encode_deposit(*self));
        }
        out
    }
}

/// The pool must be in the state `Initialized`.
pub open spec fn state_check(config: Account) -> Result<(), AmmError> {
    match config_account_check(config) {
        Err(e) => Err(e),
        Ok(()) => if config_from_bytes(config.data@).state == AmmState::Initialized.code() {
            Ok(())
        } else {
            Err(AmmError::StateViolation)
        },
    }
}

/// What is asked before a deposit is accepted: the accounts, the payload, and
/// the state of the pool.
pub open spec fn deposit_check(data: Seq<u8>, accounts: Seq<Account>, clock: Option<i64>) -> Result<
    (),
    AmmError,
> {
    match deposit_accounts_check(accounts) {
        Err(e) => Err(e),
        Ok(()) => match decode_deposit(data, clock) {
            Err(e) => Err(e),
            Ok(_) => state_check(accounts[7]),
        },
    }
}

/// A deposit that passed its checks.
pub struct Deposit<'a> {
    pub accounts: DepositAccounts<'a>,
    pub instruction_data: DepositInstructionData,
}

impl<'a> Deposit<'a> {
    /// The byte that selects this instruction.
    pub const DISCRIMINATOR: u8 = 1;

    /// The payments into the vaults: exactly the two amounts the caller
    /// named, each only if it is not 0, under the user's own signature.
    pub open spec fn payments(self) -> Seq<EffectView> {
        let pay_x = if self.instruction_data.max_x > 0 {
            seq![
                EffectView::Transfer {
                    from: self.accounts.user_x_ata.address@,
                    to: self.accounts.vault_x.address@,
                    authority: self.accounts.user.address@,
                    amount: self.instruction_data.max_x,
                    signer_seeds: Seq::<Seq<u8>>::empty(),
                },
            ]
        } else {
            Seq::<EffectView>::empty()
        };
        let pay_y = if self.instruction_data.max_y > 0 {
            seq![
                EffectView::Transfer {
                    from: self.accounts.user_y_ata.address@,
                    to: self.accounts.vault_y.address@,
                    authority: self.accounts.user.address@,
                    amount: self.instruction_data.max_y,
                    signer_seeds: Seq::<Seq<u8>>::empty(),
                },
            ]
        } else {
            Seq::<EffectView>::empty()
        };
        pay_x + pay_y
    }

    /// What the deposit asks of the ledger: the payments, then the minting of
    /// the shares the caller named, in the name of the pool record.
    pub open spec fn plan(self) -> PlanView {
        if self.instruction_data.amount == 0 {
            completed_plan(self.payments())
        } else {
            match config_account_check(*self.accounts.config) {
                Err(e) => PlanView { effects: self.payments(), outcome: Err(e) },
                Ok(()) => completed_plan(
                    self.payments() + seq![
                        EffectView::MintTo {
                            mint: self.accounts.mint_lp.address@,
                            account: self.accounts.user_lp_ata.address@,
                            mint_authority: self.accounts.config.address@,
                            amount: self.instruction_data.amount,
                            signer_seeds: config_from_bytes(
                                self.accounts.config.data@,
                            ).signer_seeds(),
                        },
                    ],
                ),
            }
        }
    }

    /// Builds a deposit from its payload and its accounts: the accounts are
    /// checked first, then the payload, then the state of the pool.
    pub fn try_from(data: &[u8], accounts: &'a [Account], clock: Option<i64>) -> (r: Result<
        Self,
        AmmError,
    >)
        ensures
            r is Ok <==> deposit_check(data@, accounts@, clock) is Ok,
            r is Err ==> deposit_check(data@, accounts@, clock) == Err::<(), AmmError>(r->Err_0),
            r is Ok ==> r->Ok_0.accounts == DepositAccounts::of(accounts@),
            r is Ok ==> decode_deposit(data@, clock) == Ok::<DepositInstructionData, AmmError>(
                r->Ok_0.instruction_data,
            ),
    {
        let accounts = match DepositAccounts::try_from(accounts) {
            Ok(accounts) => accounts,
            Err(e) => {
                return Err(e);
            },
        };
        let instruction_data = match DepositInstructionData::try_from(data, clock) {
            Ok(fields) => fields,
            Err(e) => {
                return Err(e);
            },
        };
        let config = match Config::load_mut(accounts.config) {
            Ok(config) => config,
            Err(e) => {
                return Err(e);
            },
        };
        if config.state() != AmmState::Initialized.as_u8() {
            return Err(AmmError::StateViolation);
        }
        Ok(Deposit { accounts, instruction_data })
    }

    /// Plans the deposit: pay in, then mint the shares.
    pub fn process(&self) -> (plan: Plan)
        ensures
            plan@ == self.plan(),
    {
        let mut effects: Vec<Effect> = Vec::new();
        if self.instruction_data.max_x > 0 {
            effects.push(
                Effect::Transfer {
                    from: self.accounts.user_x_ata.address,
                    to: self.accounts.vault_x.address,
                    authority: self.accounts.user.address,
                    amount: self.instruction_data.max_x,
                    signer_seeds: user_signed(),
                },
            );
        }
        if self.instruction_data.max_y > 0 {
            effects.push(
                Effect::Transfer {
                    from: self.accounts.user_y_ata.address,
                    to: self.accounts.vault_y.address,
                    authority: self.accounts.user.address,
                    amount: self.instruction_data.max_y,
                    signer_seeds: user_signed(),
                },
            );
        }
        if self.instruction_data.amount == 0 {
            let plan = Plan { effects, outcome: Ok(()) };
            proof {
                assert(plan@.effects =~= self.plan().effects);
            }
            return plan;
        }
        let config = match Config::load(self.accounts.config) {
            Ok(config) => config,
            Err(e) => {
                let plan = Plan { effects, outcome: Err(e) };
                proof {
                    assert(plan@.effects =~= self.plan().effects);
                }
                return plan;
            },
        };
        effects.push(
            Effect::MintTo {
                mint: self.accounts.mint_lp.address,
                account: self.accounts.user_lp_ata.address,
                mint_authority: self.accounts.config.address,
                amount: self.instruction_data.amount,
                signer_seeds: config.signer_seeds(),
            },
        );
        let plan = Plan { effects, outcome: Ok(()) };
        proof {
            assert(plan@.effects =~= self.plan().effects);
        }
        plan
    }
}

/// A payload of any length but 32 is malformed; a payload that decodes is
/// spelt again, byte for byte, by the fields it decoded to.
pub proof fn lemma_deposit_round_trip(data: Seq<u8>, clock: Option<i64>)
    ensures
        data.len() != 32 ==> decode_deposit(data, clock) == Err::<DepositInstructionData, AmmError>(
            AmmError::MalformedInput,
        ),
        decode_deposit(data, clock) is Ok ==> encode_deposit(decode_deposit(data, clock)->Ok_0)
            == data,
{
    if decode_deposit(data, clock) is Ok {
        lemma_four_numbers(data);
    }
}

/// Fields that pass the checks of the decoder are decoded from their own
/// spelling.
pub proof fn lemma_deposit_decodes_encoding(fields: DepositInstructionData, clock: Option<i64>)
    requires
        fields.amount != 0,
        expiration_check(fields.expiration, clock) is Ok,
    ensures
        encode_deposit(fields).len() == 32,
        decode_deposit(encode_deposit(fields), clock) == Ok::<DepositInstructionData, AmmError>(
            fields,
        ),
{
    lemma_spelling_of_four(fields.amount, fields.max_x, fields.max_y, fields.expiration);
}

/// An accepted deposit is planned to the end: the two payments the caller
/// named, then the minting of exactly the shares the caller named, signed with
/// the seeds of the pool record.
pub proof fn lemma_deposit_accepted(data: Seq<u8>, accounts: Seq<Account>, clock: Option<i64>)
    requires
        deposit_check(data, accounts, clock) is Ok,
    ensures
        ({
            let fields = decode_deposit(data, clock)->Ok_0;
            let deposit = Deposit { accounts: DepositAccounts::of(accounts), instruction_data: fields };
            let plan = deposit.plan();
            &&& plan.outcome is Ok
            &&& plan.effects.len() >= 1
            &&& plan.effects.last() == (EffectView::MintTo {
                mint: accounts[1].address@,
                account: accounts[6].address@,
                mint_authority: accounts[7].address@,
                amount: fields.amount,
                signer_seeds: config_from_bytes(accounts[7].data@).signer_seeds(),
            })
            &&& config_from_bytes(accounts[7].data@).state == AmmState::Initialized.code()
        }),
{
}

/// With the oracle's time at hand, a payload of 32 bytes and a nonzero amount
/// is refused as expired exactly when its deadline is not 0 and the time is
/// past it; otherwise it decodes. A deadline of 0 never expires.
pub proof fn lemma_deposit_deadline(data: Seq<u8>, now: i64)
    requires
        data.len() == 32,
        parse_deposit(data).amount != 0,
    ensures
        decode_deposit(data, Some(now)) == Err::<DepositInstructionData, AmmError>(AmmError::Expired) <==> expired(
            parse_deposit(data).expiration,
            now,
        ),
        !expired(parse_deposit(data).expiration, now) ==> decode_deposit(data, Some(now)) is Ok,
        parse_deposit(data).expiration == 0 ==> decode_deposit(data, Some(now)) is Ok,
{
}

} // verus!
