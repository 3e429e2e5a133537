//! Swap: pay one asset into its vault and take the other out of its vault,
//! at the price of the constant-product curve.

use crate::account::{read_token_amount, Account};
use crate::bytes::{
    le_bytes, le_value, lemma_le_bytes_len, lemma_le_bytes_of_value, lemma_le_value_8,
    lemma_le_value_of_bytes_u64, lemma_signed_pattern, pattern64, push_i64_le, push_u64_le,
    read_i64_le, read_u64_le, signed64,
};
use crate::clock::{check_expiration, expiration_check, expired};
use crate::curve::{lemma_swap_quote_sound, quote_swap, swap_quote, SwapResult};
use crate::effect::{
    completed_plan, refused_plan, user_signed, Effect, EffectView, Plan, PlanView,
};
use crate::error::AmmError;
use crate::state::{config_account_check, config_from_bytes, AmmState, Config};
use crate::validate::{check_swap_accounts, swap_accounts_check};
use vstd::prelude::*;

verus! {

/// The accounts of a swap, by role.
pub struct SwapAccounts<'a> {
    /// Who swaps; must have signed.
    pub user: &'a Account,
    /// The user's account of the first asset.
    pub user_x_ata: &'a Account,
    /// The user's account of the second asset.
    pub user_y_ata: &'a Account,
    /// The pool's vault of the first asset.
    pub vault_x: &'a Account,
    /// The pool's vault of the second asset.
    pub vault_y: &'a Account,
    /// The pool record.
    pub config: &'a Account,
    /// The token ledger.
    pub token_program: &'a Account,
}

impl<'a> SwapAccounts<'a> {
    /// The roles as the entries of `accounts`, in the instruction's order.
    pub open spec fn of(accounts: Seq<Account>) -> Self {
        SwapAccounts {
            user: &accounts[0],
            user_x_ata: &accounts[1],
            user_y_ata: &accounts[2],
            vault_x: &accounts[3],
            vault_y: &accounts[4],
            config: &accounts[5],
            token_program: &accounts[6],
        }
    }

    /// Names the accounts of a swap and checks them.
    pub fn try_from(accounts: &'a [Account]) -> (r: Result<Self, AmmError>)
        ensures
            r is Ok <==> swap_accounts_check(accounts@) is Ok,
            r is Err ==> swap_accounts_check(accounts@) == Err::<(), AmmError>(r->Err_0),
            r is Ok ==> r->Ok_0 == Self::of(accounts@),
    {
        match check_swap_accounts(accounts) {
            Ok(()) => {},
            Err(e) => {
                return Err(e);
            },
        }
        Ok(
            SwapAccounts {
                user: &accounts[0],
                user_x_ata: &accounts[1],
                user_y_ata: &accounts[2],
                vault_x: &accounts[3],
                vault_y: &accounts[4],
                config: &accounts[5],
                token_program: &accounts[6],
            },
        )
    }
}

/// The payload of a swap: 25 bytes, a flag and three little-endian numbers.
#[derive(Clone, Copy, Debug, PartialEq, Eq, Structural)]
pub struct SwapInstructionData {
    /// Whether the first asset is paid in and the second taken out.
    pub is_x: bool,
    /// How much is offered.
    pub amount: u64,
    /// The least the user accepts to take out.
    pub min: u64,
    /// The deadline, as Unix time; 0 for none.
    pub expiration: i64,
}

/// The fields that a payload of 25 bytes spells.
pub open spec fn parse_swap(data: Seq<u8>) -> SwapInstructionData
    recommends
        data.len() == 25,
        data[0] <= 1,
{
    SwapInstructionData {
        is_x: data[0] == 1,
        amount: le_value(data.subrange(1, 9)) as u64,
        min: le_value(data.subrange(9, 17)) as u64,
        expiration: signed64(le_value(data.subrange(17, 25))) as i64,
    }
}

/// Decoding a swap: the length and the flag byte, then the deadline, then the
/// amount, then the floor.
pub open spec fn decode_swap(data: Seq<u8>, clock: Option<i64>) -> Result<
    SwapInstructionData,
    AmmError,
> {
    if data.len() != 25 || data[0] > 1 {
        Err(AmmError::MalformedInput)
    } else {
        let fields = parse_swap(data);
        match expiration_check(fields.expiration, clock) {
            Err(e) => Err(e),
            Ok(()) => if fields.amount == 0 || fields.min == 0 {
                Err(AmmError::InvalidArgument)
            } else {
                Ok(fields)
            },
        }
    }
}

/// The 25 bytes that spell the fields.
pub open spec fn encode_swap(fields: SwapInstructionData) -> Seq<u8> {
    seq![if fields.is_x { 1u8 } else { 0u8 }] + le_bytes(fields.amount as nat, 8) + le_bytes(
        fields.min as nat,
        8,
    ) + le_bytes(pattern64(fields.expiration as int), 8)
}

impl SwapInstructionData {
    /// The payload length.
    pub const LEN: usize = 25;

    /// Decodes the payload of a swap, given what the clock oracle says.
    pub fn try_from(data: &[u8], clock: Option<i64>) -> (r: Result<Self, AmmError>)
        ensures
            r == decode_swap(data@, clock),
    {
        if data.len() != Self::LEN {
            return Err(AmmError::MalformedInput);
        }
        let flag: u8 = data[0];
        if flag > 1 {
            return Err(AmmError::MalformedInput);
        }
        proof {
            lemma_le_value_8(data@.subrange(1, 9));
            lemma_le_value_8(data@.subrange(9, 17));
            lemma_le_value_8(data@.subrange(17, 25));
        }
        let fields = SwapInstructionData {
            is_x: flag == 1,
            amount: read_u64_le(data, 1),
            min: read_u64_le(data, 9),
            expiration: read_i64_le(data, 17),
        };
        match check_expiration(fields.expiration, clock) {
            Ok(()) => {},
            Err(e) => {
                return Err(e);
            },
        }
        if fields.amount == 0 {
            return Err(AmmError::InvalidArgument);
        }
        if fields.min == 0 {
            return Err(AmmError::InvalidArgument);
        }
        Ok(fields)
    }

    /// The payload that spells these fields.
    pub fn to_bytes(&self) -> (data: Vec<u8>)
        ensures
            data@ == encode_swap(*self),
    {
        let mut out: Vec<u8> = Vec::new();
        out.push(if self.is_x { 1u8 } else { 0u8 });
        push_u64_le(&mut out, self.amount);
        push_u64_le(&mut out, self.min);
        push_i64_le(&mut out, self.expiration);
        proof {
            assert(out@ =~= encode_swap(*self));
        }
        out
    }
}

/// What is asked before a swap is accepted: the accounts, then the payload.
pub open spec fn swap_check(data: Seq<u8>, accounts: Seq<Account>, clock: Option<i64>) -> Result<
    (),
    AmmError,
> {
    match swap_accounts_check(accounts) {
        Err(e) => Err(e),
        Ok(()) => match decode_swap(data, clock) {
            Err(e) => Err(e),
            Ok(_) => Ok(()),
        },
    }
}

/// The quote of a swap on the pool as observed: the reserves are what the two
/// vaults hold, the fee is the pool record's, and the pool must be in the
/// state `Initialized`. The direction picks which reserve is paid into.
pub open spec fn pool_swap_quote(
    vault_x: Account,
    vault_y: Account,
    config: Account,
    fields: SwapInstructionData,
) -> Result<SwapResult, AmmError> {
    match read_token_amount(vault_x) {
        Err(e) => Err(e),
        Ok(reserve_x) => match read_token_amount(vault_y) {
            Err(e) => Err(e),
            Ok(reserve_y) => match config_account_check(config) {
                Err(e) => Err(e),
                Ok(()) => {
                    let record = config_from_bytes(config.data@);
                    if record.state != AmmState::Initialized.code() {
                        Err(AmmError::StateViolation)
                    } else if fields.is_x {
                        swap_quote(reserve_x, reserve_y, fields.amount, record.fee_bps, fields.min)
                    } else {
                        swap_quote(reserve_y, reserve_x, fields.amount, record.fee_bps, fields.min)
                    }
                },
            },
        },
    }
}

/// A swap that passed its checks.
pub struct Swap<'a> {
    pub accounts: SwapAccounts<'a>,
    pub instruction_data: SwapInstructionData,
}

impl<'a> Swap<'a> {
    /// The byte that selects this instruction.
    pub const DISCRIMINATOR: u8 = 3;

    /// What the swap asks of the ledger: the user pays the quoted deposit into
    /// the vault of the asset offered, under the user's own signature; then
    /// the other vault pays the quoted amount to the user, in the name of the
    /// pool record.
    pub open spec fn plan(self) -> PlanView {
        match pool_swap_quote(
            *self.accounts.vault_x,
            *self.accounts.vault_y,
            *self.accounts.config,
            self.instruction_data,
        ) {
            Err(e) => refused_plan(e),
            Ok(quote) => {
                let seeds = config_from_bytes(self.accounts.config.data@).signer_seeds();
                if self.instruction_data.is_x {
                    completed_plan(
                        seq![
                            EffectView::Transfer {
                                from: self.accounts.user_x_ata.address@,
                                to: self.accounts.vault_x.address@,
                                authority: self.accounts.user.address@,
                                amount: quote.deposit,
                                signer_seeds: Seq::<Seq<u8>>::empty(),
                            },
                            EffectView::Transfer {
                                from: self.accounts.vault_y.address@,
                                to: self.accounts.user_y_ata.address@,
                                authority: self.accounts.config.address@,
                                amount: quote.withdraw,
                                signer_seeds: seeds,
                            },
                        ],
                    )
                } else {
                    completed_plan(
                        seq![
                            EffectView::Transfer {
                                from: self.accounts.user_y_ata.address@,
                                to: self.accounts.vault_y.address@,
                                authority: self.accounts.user.address@,
                                amount: quote.deposit,
                                signer_seeds: Seq::<Seq<u8>>::empty(),
                            },
                            EffectView::Transfer {
                                from: self.accounts.vault_x.address@,
                                to: self.accounts.user_x_ata.address@,
                                authority: self.accounts.config.address@,
                                amount: quote.withdraw,
                                signer_seeds: seeds,
                            },
                        ],
                    )
                }
            },
        }
    }

    /// Builds a swap from its payload and its accounts: the accounts are
    /// checked first, then the payload.
    pub fn try_from(data: &[u8], accounts: &'a [Account], clock: Option<i64>) -> (r: Result<
        Self,
        AmmError,
    >)
        ensures
            r is Ok <==> swap_check(data@, accounts@, clock) is Ok,
            r is Err ==> swap_check(data@, accounts@, clock) == Err::<(), AmmError>(r->Err_0),
            r is Ok ==> r->Ok_0.accounts == SwapAccounts::of(accounts@),
            r is Ok ==> decode_swap(data@, clock) == Ok::<SwapInstructionData, AmmError>(
                r->Ok_0.instruction_data,
            ),
    {
        let accounts = match SwapAccounts::try_from(accounts) {
            Ok(accounts) => accounts,
            Err(e) => {
                return Err(e);
            },
        };
        let instruction_data = match SwapInstructionData::try_from(data, clock) {
            Ok(fields) => fields,
            Err(e) => {
                return Err(e);
            },
        };
        Ok(Swap { accounts, instruction_data })
    }

    /// Quotes the swap on what the vaults and the pool record hold now.
    pub fn quote(&self) -> (r: Result<SwapResult, AmmError>)
        ensures
            r == pool_swap_quote(
                *self.accounts.vault_x,
                *self.accounts.vault_y,
                *self.accounts.config,
                self.instruction_data,
            ),
    {
        let reserve_x: u64 = match self.accounts.vault_x.token_amount() {
            Ok(amount) => amount,
            Err(e) => {
                return Err(e);
            },
        };
        let reserve_y: u64 = match self.accounts.vault_y.token_amount() {
            Ok(amount) => amount,
            Err(e) => {
                return Err(e);
            },
        };
        let config = match Config::load(self.accounts.config) {
            Ok(config) => config,
            Err(e) => {
                return Err(e);
            },
        };
        if config.state() != AmmState::Initialized.as_u8() {
            return Err(AmmError::StateViolation);
        }
        if self.instruction_data.is_x {
            quote_swap(
                reserve_x,
                reserve_y,
                self.instruction_data.amount,
                config.fee(),
                self.instruction_data.min,
            )
        } else {
            quote_swap(
                reserve_y,
                reserve_x,
                self.instruction_data.amount,
                config.fee(),
                self.instruction_data.min,
            )
        }
    }

    /// Plans the swap: quote it, then move the two amounts.
    pub fn process(&self) -> (plan: Plan)
        ensures
            plan@ == self.plan(),
    {
        let quote = match self.quote() {
            Ok(quote) => quote,
            Err(e) => {
                return Plan::refused(e);
            },
        };
        let config = Config::from_bytes_unchecked(self.accounts.config.data.as_slice());
        let mut effects: Vec<Effect> = Vec::new();
        if self.instruction_data.is_x {
            effects.push(
                Effect::Transfer {
                    from: self.accounts.user_x_ata.address,
                    to: self.accounts.vault_x.address,
                    authority: self.accounts.user.address,
                    amount: quote.deposit,
                    signer_seeds: user_signed(),
                },
            );
            effects.push(
                Effect::Transfer {
                    from: self.accounts.vault_y.address,
                    to: self.accounts.user_y_ata.address,
                    authority: self.accounts.config.address,
                    amount: quote.withdraw,
                    signer_seeds: config.signer_seeds(),
                },
            );
        } else {
            effects.push(
                Effect::Transfer {
                    from: self.accounts.user_y_ata.address,
                    to: self.accounts.vault_y.address,
                    authority: self.accounts.user.address,
                    amount: quote.deposit,
                    signer_seeds: user_signed(),
                },
            );
            effects.push(
                Effect::Transfer {
                    from: self.accounts.vault_x.address,
                    to: self.accounts.user_x_ata.address,
                    authority: self.accounts.config.address,
                    amount: quote.withdraw,
                    signer_seeds: config.signer_seeds(),
                },
            );
        }
        let plan = Plan { effects, outcome: Ok(()) };
        proof {
            assert(plan@.effects =~= self.plan().effects);
        }
        plan
    }
}

/// A payload of any length but 25 is malformed; a payload that decodes is
/// spelt again, byte for byte, by the fields it decoded to.
pub proof fn lemma_swap_round_trip(data: Seq<u8>, clock: Option<i64>)
    ensures
        data.len() != 25 ==> decode_swap(data, clock) == Err::<SwapInstructionData, AmmError>(
            AmmError::MalformedInput,
        ),
        decode_swap(data, clock) is Ok ==> encode_swap(decode_swap(data, clock)->Ok_0) == data,
{
    if decode_swap(data, clock) is Ok {
        lemma_le_bytes_of_value(data.subrange(1, 9));
        lemma_le_bytes_of_value(data.subrange(9, 17));
        lemma_le_bytes_of_value(data.subrange(17, 25));
        lemma_le_value_8(data.subrange(1, 9));
        lemma_le_value_8(data.subrange(9, 17));
        lemma_le_value_8(data.subrange(17, 25));
        let fields = decode_swap(data, clock)->Ok_0;
        lemma_signed_pattern(0, le_value(data.subrange(17, 25)) as u64);
        assert(encode_swap(fields) =~= data);
    }
}

/// Fields that pass the checks of the decoder are decoded from their own
/// spelling.
pub proof fn lemma_swap_decodes_encoding(fields: SwapInstructionData, clock: Option<i64>)
    requires
        fields.amount != 0,
        fields.min != 0,
        expiration_check(fields.expiration, clock) is Ok,
    ensures
        encode_swap(fields).len() == 25,
        decode_swap(encode_swap(fields), clock) == Ok::<SwapInstructionData, AmmError>(fields),
{
    let data = encode_swap(fields);
    let pattern = pattern64(fields.expiration as int);
    lemma_signed_pattern(fields.expiration, 0);
    lemma_le_bytes_len(fields.amount as nat, 8);
    lemma_le_bytes_len(fields.min as nat, 8);
    lemma_le_bytes_len(pattern, 8);
    lemma_le_value_of_bytes_u64(fields.amount);
    lemma_le_value_of_bytes_u64(fields.min);
    lemma_le_value_of_bytes_u64(pattern as u64);
    assert(data.subrange(1, 9) =~= le_bytes(fields.amount as nat, 8));
    assert(data.subrange(9, 17) =~= le_bytes(fields.min as nat, 8));
    assert(data.subrange(17, 25) =~= le_bytes(pattern, 8));
}

/// A swap that is planned to the end moves exactly two amounts: the quoted
/// deposit from the user into the vault of the asset offered, then the quoted
/// amount from the other vault to the user. The amount paid out is at least
/// the caller's floor and less than the vault holds, and the product of the
/// two reserves after the swap is at least the product before.
pub proof fn lemma_swap_planned(swap: Swap)
    requires
        swap.plan().outcome is Ok,
    ensures
        ({
            let quote = pool_swap_quote(
                *swap.accounts.vault_x,
                *swap.accounts.vault_y,
                *swap.accounts.config,
                swap.instruction_data,
            );
            let reserve_x = read_token_amount(*swap.accounts.vault_x)->Ok_0;
            let reserve_y = read_token_amount(*swap.accounts.vault_y)->Ok_0;
            let reserve_in = if swap.instruction_data.is_x {
                reserve_x
            } else {
                reserve_y
            };
            let reserve_out = if swap.instruction_data.is_x {
                reserve_y
            } else {
                reserve_x
            };
            &&& quote is Ok
            &&& config_from_bytes(swap.accounts.config.data@).state == AmmState::Initialized.code()
            &&& swap.plan().effects.len() == 2
            &&& swap.plan().effects[0] is Transfer
            &&& swap.plan().effects[0]->Transfer_amount == quote->Ok_0.deposit
            &&& swap.plan().effects[1] is Transfer
            &&& swap.plan().effects[1]->Transfer_amount == quote->Ok_0.withdraw
            &&& swap.instruction_data.min <= quote->Ok_0.withdraw < reserve_out
            &&& (reserve_in + quote->Ok_0.deposit) * (reserve_out - quote->Ok_0.withdraw)
                >= reserve_in * reserve_out
        }),
{
    let reserve_x = read_token_amount(*swap.accounts.vault_x)->Ok_0;
    let reserve_y = read_token_amount(*swap.accounts.vault_y)->Ok_0;
    let fee = config_from_bytes(swap.accounts.config.data@).fee_bps;
    if swap.instruction_data.is_x {
        lemma_swap_quote_sound(
            reserve_x,
            reserve_y,
            swap.instruction_data.amount,
            fee,
            swap.instruction_data.min,
        );
    } else {
        lemma_swap_quote_sound(
            reserve_y,
            reserve_x,
            swap.instruction_data.amount,
            fee,
            swap.instruction_data.min,
        );
    }
}

/// With the oracle's time at hand, a payload of 25 bytes with a proper flag
/// byte is refused as expired exactly when its deadline is not 0 and the time
/// is past it, whatever its amounts. A deadline of 0 never expires.
pub proof fn lemma_swap_deadline(data: Seq<u8>, now: i64)
    requires
        data.len() == 25,
        data[0] <= 1,
    ensures
        decode_swap(data, Some(now)) == Err::<SwapInstructionData, AmmError>(AmmError::Expired)
            <==> expired(parse_swap(data).expiration, now),
        parse_swap(data).expiration == 0 ==> decode_swap(data, Some(now)) != Err::<
            SwapInstructionData,
            AmmError,
        >(AmmError::Expired),
{
}

} // verus!
