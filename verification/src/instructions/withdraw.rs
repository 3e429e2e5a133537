//! Withdraw: burn pool shares and take the share of both reserves.

use crate::account::{read_mint_supply, read_token_amount, Account};
use crate::bytes::{
    le_value, lemma_four_numbers, lemma_le_value_8, lemma_spelling_of_four, push_i64_le,
    push_u64_le, read_i64_le, read_u64_le, signed64, spell_four,
};
use crate::clock::{check_expiration, expiration_check, expired};
use crate::curve::{lemma_withdraw_share_bounded, quote_withdraw, withdraw_amounts, XYAmounts};
use crate::effect::{completed_plan, refused_plan, Effect, EffectView, Plan, PlanView};
use crate::error::AmmError;
use crate::state::{config_account_check, config_from_bytes, Config};
use crate::validate::{check_withdraw_accounts, withdraw_accounts_check};
use vstd::prelude::*;

verus! {

/// The accounts of a withdrawal, by role.
pub struct WithdrawAccounts<'a> {
    /// Who withdraws; must have signed.
    pub user: &'a Account,
    /// The mint of the pool shares.
    pub mint_lp: &'a Account,
    /// The pool's vault of the first asset.
    pub vault_x: &'a Account,
    /// The pool's vault of the second asset.
    pub vault_y: &'a Account,
    /// The user's account of the first asset.
    pub user_x_ata: &'a Account,
    /// The user's account of the second asset.
    pub user_y_ata: &'a Account,
    /// The user's account of pool shares.
    pub user_lp_ata: &'a Account,
    /// The pool record.
    pub config: &'a Account,
    /// The token ledger.
    pub token_program: &'a Account,
}

impl<'a> WithdrawAccounts<'a> {
    /// The roles as the entries of `accounts`, in the instruction's order.
    pub open spec fn of(accounts: Seq<Account>) -> Self {
        WithdrawAccounts {
            user: &accounts[0],
            mint_lp: &accounts[1],
            vault_x: &accounts[2],
            vault_y: &accounts[3],
            user_x_ata: &accounts[4],
            user_y_ata: &accounts[5],
            user_lp_ata: &accounts[6],
            config: &accounts[7],
            token_program: &accounts[8],
        }
    }

    /// Names the accounts of a withdrawal and checks them.
    pub fn try_from(accounts: &'a [Account]) -> (r: Result<Self, AmmError>)
        ensures
            r is Ok <==> withdraw_accounts_check(accounts@) is Ok,
            r is Err ==> withdraw_accounts_check(accounts@) == Err::<(), AmmError>(r->Err_0),
            r is Ok ==> r->Ok_0 == Self::of(accounts@),
    {
        match check_withdraw_accounts(accounts) {
            Ok(()) => {},
            Err(e) => {
                return Err(e);
            },
        }
        Ok(
            WithdrawAccounts {
                user: &accounts[0],
                mint_lp: &accounts[1],
                vault_x: &accounts[2],
                vault_y: &accounts[3],
                user_x_ata: &accounts[4],
                user_y_ata: &accounts[5],
                user_lp_ata: &accounts[6],
                config: &accounts[7],
                token_program: &accounts[8],
            },
        )
    }
}

/// The payload of a withdrawal: 32 bytes, four little-endian numbers.
#[derive(Clone, Copy, Debug, PartialEq, Eq, Structural)]
pub struct WithdrawInstructionData {
    /// How many pool shares to burn.
    pub amount: u64,
    /// The least of the first asset the user accepts.
    pub min_x: u64,
    /// The least of the second asset the user accepts.
    pub min_y: u64,
    /// The deadline, as Unix time; 0 for none.
    pub expiration: i64,
}

/// The fields that a payload of 32 bytes spells.
pub open spec fn parse_withdraw(data: Seq<u8>) -> WithdrawInstructionData
    recommends
        data.len() == 32,
{
    WithdrawInstructionData {
        amount: le_value(data.subrange(0, 8)) as u64,
        min_x: le_value(data.subrange(8, 16)) as u64,
        min_y: le_value(data.subrange(16, 24)) as u64,
        expiration: signed64(le_value(data.subrange(24, 32))) as i64,
    }
}

/// Decoding a withdrawal: the length, then the amount, then the deadline.
pub open spec fn decode_withdraw(data: Seq<u8>, clock: Option<i64>) -> Result<
    WithdrawInstructionData,
    AmmError,
> {
    if data.len() != 32 {
        Err(AmmError::MalformedInput)
    } else {
        let fields = parse_withdraw(data);
        if fields.amount == 0 {
            Err(AmmError::InvalidArgument)
        } else {
            match expiration_check(fields.expiration, clock) {
                Err(e) => Err(e),
                Ok(()) => Ok(fields),
            }
        }
    }
}

/// The 32 bytes that spell the fields.
pub open spec fn encode_withdraw(fields: WithdrawInstructionData) -> Seq<u8> {
    spell_four(fields.amount, fields.min_x, fields.min_y, fields.expiration)
}

impl WithdrawInstructionData {
    /// The payload length.
    pub const LEN: usize = 32;

    /// Decodes the payload of a withdrawal, given what the clock oracle says.
    pub fn try_from(data: &[u8], clock: Option<i64>) -> (r: Result<Self, AmmError>)
        ensures
            r == decode_withdraw(data@, clock),
    {
        if data.len() != Self::LEN {
            return Err(AmmError::MalformedInput);
        }
        proof {
            lemma_le_value_8(data@.subrange(0, 8));
            lemma_le_value_8(data@.subrange(8, 16));
            lemma_le_value_8(data@.subrange(16, 24));
            lemma_le_value_8(data@.subrange(24, 32));
        }
        let fields = WithdrawInstructionData {
            amount: read_u64_le(data, 0),
            min_x: read_u64_le(data, 8),
            min_y: read_u64_le(data, 16),
            expiration: read_i64_le(data, 24),
        };
        if fields.amount == 0 {
            return Err(AmmError::InvalidArgument);
        }
        match check_expiration(fields.expiration, clock) {
            Ok(()) => Ok(fields),
            Err(e) => Err(e),
        }
    }

    /// The payload that spells these fields.
    pub fn to_bytes(&self) -> (data: Vec<u8>)
        ensures
            data@ == encode_withdraw(*self),
    {
        let mut out: Vec<u8> = Vec::new();
        push_u64_le(&mut out, self.amount);
        push_u64_le(&mut out, self.min_x);
        push_u64_le(&mut out, self.min_y);
        push_i64_le(&mut out, self.expiration);
        proof {
            assert(out@ =~= encode_withdraw(*self));
        }
        out
    }
}

/// The quote of a withdrawal of `amount` shares, on what the mint and the two
/// vaults hold.
pub open spec fn withdraw_quote(mint_lp: Account, vault_x: Account, vault_y: Account, amount: u64) -> Result<
    XYAmounts,
    AmmError,
> {
    match read_mint_supply(mint_lp) {
        Err(e) => Err(e),
        Ok(supply) => match read_token_amount(vault_x) {
            Err(e) => Err(e),
            Ok(reserve_x) => match read_token_amount(vault_y) {
                Err(e) => Err(e),
                Ok(reserve_y) => withdraw_amounts(reserve_x, reserve_y, supply, amount),
            },
        },
    }
}

/// The floors of a withdrawal on a quote.
pub open spec fn floors_check(quote: XYAmounts, fields: WithdrawInstructionData) -> Result<
    (),
    AmmError,
> {
    if quote.x >= fields.min_x && quote.y >= fields.min_y {
        Ok(())
    } else {
        Err(AmmError::SlippageViolation)
    }
}

/// What is asked before a withdrawal is accepted: the accounts, the payload,
/// a quote on the observed reserves and supply, and the caller's floors.
pub open spec fn withdraw_check(data: Seq<u8>, accounts: Seq<Account>, clock: Option<i64>) -> Result<
    (),
    AmmError,
> {
    match withdraw_accounts_check(accounts) {
        Err(e) => Err(e),
        Ok(()) => match decode_withdraw(data, clock) {
            Err(e) => Err(e),
            Ok(fields) => match withdraw_quote(
                accounts[1],
                accounts[2],
                accounts[3],
                fields.amount,
            ) {
                Err(e) => Err(e),
                Ok(quote) => floors_check(quote, fields),
            },
        },
    }
}

/// Quotes a withdrawal of `amount` shares on what the accounts hold.
pub fn quote(mint_lp: &Account, vault_x: &Account, vault_y: &Account, amount: u64) -> (r: Result<
    XYAmounts,
    AmmError,
>)
    ensures
        r == withdraw_quote(*mint_lp, *vault_x, *vault_y, amount),
{
    let supply: u64 = match mint_lp.mint_supply() {
        Ok(supply) => supply,
        Err(e) => {
            return Err(e);
        },
    };
    let reserve_x: u64 = match vault_x.token_amount() {
        Ok(amount) => amount,
        Err(e) => {
            return Err(e);
        },
    };
    let reserve_y: u64 = match vault_y.token_amount() {
        Ok(amount) => amount,
        Err(e) => {
            return Err(e);
        },
    };
    quote_withdraw(reserve_x, reserve_y, supply, amount)
}

/// A withdrawal that passed its checks.
pub struct Withdraw<'a> {
    pub accounts: WithdrawAccounts<'a>,
    pub instruction_data: WithdrawInstructionData,
}

impl<'a> Withdraw<'a> {
    /// The byte that selects this instruction.
    pub const DISCRIMINATOR: u8 = 2;

    /// What the withdrawal asks of the ledger. The quote is taken again, on
    /// the same accounts; the shares are burnt before anything is paid out.
    pub open spec fn plan(self) -> PlanView {
        match withdraw_quote(
            *self.accounts.mint_lp,
            *self.accounts.vault_x,
            *self.accounts.vault_y,
            self.instruction_data.amount,
        ) {
            Err(e) => refused_plan(e),
            Ok(quote) => {
                let burn = seq![
                    EffectView::Burn {
                        account: self.accounts.user_lp_ata.address@,
                        mint: self.accounts.mint_lp.address@,
                        authority: self.accounts.user.address@,
                        amount: self.instruction_data.amount,
                    },
                ];
                match config_account_check(*self.accounts.config) {
                    Err(e) => PlanView { effects: burn, outcome: Err(e) },
                    Ok(()) => {
                        let seeds = config_from_bytes(self.accounts.config.data@).signer_seeds();
                        let pay_x = if quote.x > 0 {
                            seq![
                                EffectView::Transfer {
                                    from: self.accounts.vault_x.address@,
                                    to: self.accounts.user_x_ata.address@,
                                    authority: self.accounts.config.address@,
                                    amount: quote.x,
                                    signer_seeds: seeds,
                                },
                            ]
                        } else {
                            Seq::<EffectView>::empty()
                        };
                        let pay_y = if quote.y > 0 {
                            seq![
                                EffectView::Transfer {
                                    from: self.accounts.vault_y.address@,
                                    to: self.accounts.user_y_ata.address@,
                                    authority: self.accounts.config.address@,
                                    amount: quote.y,
                                    signer_seeds: seeds,
                                },
                            ]
                        } else {
                            Seq::<EffectView>::empty()
                        };
                        completed_plan(burn + pay_x + pay_y)
                    },
                }
            },
        }
    }

    /// Builds a withdrawal from its payload and its accounts: the accounts
    /// are checked first, then the payload, then the quote against the
    /// caller's floors.
    pub fn try_from(data: &[u8], accounts: &'a [Account], clock: Option<i64>) -> (r: Result<
        Self,
        AmmError,
    >)
        ensures
            r is Ok <==> withdraw_check(data@, accounts@, clock) is Ok,
            r is Err ==> withdraw_check(data@, accounts@, clock) == Err::<(), AmmError>(r->Err_0),
            r is Ok ==> r->Ok_0.accounts == WithdrawAccounts::of(accounts@),
            r is Ok ==> decode_withdraw(data@, clock) == Ok::<WithdrawInstructionData, AmmError>(
                r->Ok_0.instruction_data,
            ),
    {
        let accounts = match WithdrawAccounts::try_from(accounts) {
            Ok(accounts) => accounts,
            Err(e) => {
                return Err(e);
            },
        };
        let instruction_data = match WithdrawInstructionData::try_from(data, clock) {
            Ok(fields) => fields,
            Err(e) => {
                return Err(e);
            },
        };
        let amounts = match quote(
            accounts.mint_lp,
            accounts.vault_x,
            accounts.vault_y,
            instruction_data.amount,
        ) {
            Ok(amounts) => amounts,
            Err(e) => {
                return Err(e);
            },
        };
        if !(amounts.x >= instruction_data.min_x && amounts.y >= instruction_data.min_y) {
            return Err(AmmError::SlippageViolation);
        }
        Ok(Withdraw { accounts, instruction_data })
    }

    /// Plans the withdrawal: burn the shares, then pay out of each vault what
    /// the quote gives, in the name of the pool record.
    pub fn process(&self) -> (plan: Plan)
        ensures
            plan@ == self.plan(),
    {
        let amounts = match quote(
            self.accounts.mint_lp,
            self.accounts.vault_x,
            self.accounts.vault_y,
            self.instruction_data.amount,
        ) {
            Ok(amounts) => amounts,
            Err(e) => {
                return Plan::refused(e);
            },
        };
        let mut effects: Vec<Effect> = Vec::new();
        effects.push(
            Effect::Burn {
                account: self.accounts.user_lp_ata.address,
                mint: self.accounts.mint_lp.address,
                authority: self.accounts.user.address,
                amount: self.instruction_data.amount,
            },
        );
        let config = match Config::load(self.accounts.config) {
            Ok(config) => config,
            Err(e) => {
                let plan = Plan { effects, outcome: Err(e) };
                proof {
                    assert(plan@.effects =~= self.plan().effects);
                }
                return plan;
            },
        };
        if amounts.x > 0 {
            effects.push(
                Effect::Transfer {
                    from: self.accounts.vault_x.address,
                    to: self.accounts.user_x_ata.address,
                    authority: self.accounts.config.address,
                    amount: amounts.x,
                    signer_seeds: config.signer_seeds(),
                },
            );
        }
        if amounts.y > 0 {
            effects.push(
                Effect::Transfer {
                    from: self.accounts.vault_y.address,
                    to: self.accounts.user_y_ata.address,
                    authority: self.accounts.config.address,
                    amount: amounts.y,
                    signer_seeds: config.signer_seeds(),
                },
            );
        }
        let plan = Plan { effects, outcome: Ok(()) };
        proof {
            assert(plan@.effects =~= self.plan().effects);
        }
        plan
    }
}

/// A payload of any length but 32 is malformed; a payload that decodes is
/// spelt again, byte for byte, by the fields it decoded to.
pub proof fn lemma_withdraw_round_trip(data: Seq<u8>, clock: Option<i64>)
    ensures
        data.len() != 32 ==> decode_withdraw(data, clock) == Err::<
            WithdrawInstructionData,
            AmmError,
        >(AmmError::MalformedInput),
        decode_withdraw(data, clock) is Ok ==> encode_withdraw(decode_withdraw(data, clock)->Ok_0)
            == data,
{
    if decode_withdraw(data, clock) is Ok {
        lemma_four_numbers(data);
    }
}

/// Fields that pass the checks of the decoder are decoded from their own
/// spelling.
pub proof fn lemma_withdraw_decodes_encoding(fields: WithdrawInstructionData, clock: Option<i64>)
    requires
        fields.amount != 0,
        expiration_check(fields.expiration, clock) is Ok,
    ensures
        encode_withdraw(fields).len() == 32,
        decode_withdraw(encode_withdraw(fields), clock) == Ok::<WithdrawInstructionData, AmmError>(
            fields,
        ),
{
    lemma_spelling_of_four(fields.amount, fields.min_x, fields.min_y, fields.expiration);
}

/// The quote taken when a withdrawal is planned is the quote that was held
/// against the floors when it was accepted: both are the same function of the
/// same accounts. So an accepted withdrawal is planned to the end, it burns
/// the shares first, and what it pays out of each vault meets the caller's
/// floor and is no more than the vault holds.
pub proof fn lemma_withdraw_accepted(data: Seq<u8>, accounts: Seq<Account>, clock: Option<i64>)
    requires
        withdraw_check(data, accounts, clock) is Ok,
    ensures
        ({
            let fields = decode_withdraw(data, clock)->Ok_0;
            let withdraw = Withdraw {
                accounts: WithdrawAccounts::of(accounts),
                instruction_data: fields,
            };
            let quote = withdraw_quote(accounts[1], accounts[2], accounts[3], fields.amount);
            let plan = withdraw.plan();
            &&& quote is Ok
            &&& fields.min_x <= quote->Ok_0.x <= read_token_amount(accounts[2])->Ok_0
            &&& fields.min_y <= quote->Ok_0.y <= read_token_amount(accounts[3])->Ok_0
            &&& plan.outcome is Ok
            &&& plan.effects.len() == 1 + (if quote->Ok_0.x > 0 {
                1int
            } else {
                0int
            }) + (if quote->Ok_0.y > 0 {
                1int
            } else {
                0int
            })
            &&& plan.effects[0] == (EffectView::Burn {
                account: accounts[6].address@,
                mint: accounts[1].address@,
                authority: accounts[0].address@,
                amount: fields.amount,
            })
        }),
{
    let fields = decode_withdraw(data, clock)->Ok_0;
    let supply = read_mint_supply(accounts[1])->Ok_0;
    if fields.amount < supply {
        lemma_withdraw_share_bounded(
            read_token_amount(accounts[2])->Ok_0 as nat,
            supply as nat,
            fields.amount as nat,
        );
        lemma_withdraw_share_bounded(
            read_token_amount(accounts[3])->Ok_0 as nat,
            supply as nat,
            fields.amount as nat,
        );
    }
}

/// With the oracle's time at hand, a payload of 32 bytes and a nonzero amount
/// is refused as expired exactly when its deadline is not 0 and the time is
/// past it; otherwise it decodes. A deadline of 0 never expires.
pub proof fn lemma_withdraw_deadline(data: Seq<u8>, now: i64)
    requires
        data.len() == 32,
        parse_withdraw(data).amount != 0,
    ensures
        decode_withdraw(data, Some(now)) == Err::<WithdrawInstructionData, AmmError>(AmmError::Expired) <==> expired(
            parse_withdraw(data).expiration,
            now,
        ),
        !expired(parse_withdraw(data).expiration, now) ==> decode_withdraw(data, Some(now)) is Ok,
        parse_withdraw(data).expiration == 0 ==> decode_withdraw(data, Some(now)) is Ok,
{
}

} // verus!
