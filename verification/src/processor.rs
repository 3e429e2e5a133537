//! The entry: one leading byte selects the instruction, the rest is its
//! payload.

use crate::account::Account;
use crate::effect::{refused_plan, Plan, PlanView};
use crate::error::AmmError;
use crate::instructions::deposit::{decode_deposit, deposit_check, Deposit, DepositAccounts};
use crate::instructions::initialize::{
    decode_initialize, initialize_check, Initialize, InitializeAccounts,
};
use crate::instructions::swap::{decode_swap, swap_check, Swap, SwapAccounts};
use crate::instructions::withdraw::{decode_withdraw, withdraw_check, Withdraw, WithdrawAccounts};
use vstd::prelude::*;
use vstd::slice::slice_subrange;

verus! {

/// What the ledger tells an instruction beside its accounts.
#[derive(Clone, Copy, Debug)]
pub struct Sysvars {
    /// The clock oracle's Unix time; `None` where it cannot be read.
    pub clock: Option<i64>,
    /// The least balance of an account of the pool record's size; `None`
    /// where the ledger's rent gives none.
    pub config_rent: Option<u64>,
    /// The least balance of an account of a mint's size; `None` where the
    /// ledger's rent gives none.
    pub mint_rent: Option<u64>,
}

/// What an instruction comes to: the plan of the instruction its first byte
/// selects, built from the payload behind that byte; a refusal where the
/// instruction's checks refuse, where there is no first byte, or where it
/// selects nothing.
pub open spec fn instruction_plan(accounts: Seq<Account>, data: Seq<u8>, sysvars: Sysvars) -> PlanView {
    if data.len() == 0 {
        refused_plan(AmmError::MalformedInput)
    } else {
        let payload = data.subrange(1, data.len() as int);
        if data[0] == 0 {
            match initialize_check(payload, accounts) {
                Err(e) => refused_plan(e),
                Ok(()) => InitializeAccounts::of(accounts).plan(
                    decode_initialize(payload)->Ok_0,
                    sysvars.config_rent,
                    sysvars.mint_rent,
                ),
            }
        } else if data[0] == 1 {
            match deposit_check(payload, accounts, sysvars.clock) {
                Err(e) => refused_plan(e),
                Ok(()) => (Deposit {
                    accounts: DepositAccounts::of(accounts),
                    instruction_data: decode_deposit(payload, sysvars.clock)->Ok_0,
                }).plan(),
            }
        } else if data[0] == 2 {
            match withdraw_check(payload, accounts, sysvars.clock) {
                Err(e) => refused_plan(e),
                Ok(()) => (Withdraw {
                    accounts: WithdrawAccounts::of(accounts),
                    instruction_data: decode_withdraw(payload, sysvars.clock)->Ok_0,
                }).plan(),
            }
        } else if data[0] == 3 {
            match swap_check(payload, accounts, sysvars.clock) {
                Err(e) => refused_plan(e),
                Ok(()) => (Swap {
                    accounts: SwapAccounts::of(accounts),
                    instruction_data: decode_swap(payload, sysvars.clock)->Ok_0,
                }).plan(),
            }
        } else {
            refused_plan(AmmError::MalformedInput)
        }
    }
}

/// Routes an instruction to its processor and returns what it asks of the
/// ledger.
pub fn process_instruction(accounts: &[Account], instruction_data: &[u8], sysvars: Sysvars) -> (plan:
    Plan)
    ensures
        plan@ == instruction_plan(accounts@, instruction_data@, sysvars),
{
    if instruction_data.len() == 0 {
        return Plan::refused(AmmError::MalformedInput);
    }
    let discriminator: u8 = instruction_data[0];
    let data = slice_subrange(instruction_data, 1, instruction_data.len());
    if discriminator == Initialize::DISCRIMINATOR {
        match Initialize::try_from(data, accounts) {
            Ok(instruction) => instruction.process(sysvars.config_rent, sysvars.mint_rent),
            Err(e) => Plan::refused(e),
        }
    } else if discriminator == Deposit::DISCRIMINATOR {
        match Deposit::try_from(data, accounts, sysvars.clock) {
            Ok(instruction) => instruction.process(),
            Err(e) => Plan::refused(e),
        }
    } else if discriminator == Withdraw::DISCRIMINATOR {
        match Withdraw::try_from(data, accounts, sysvars.clock) {
            Ok(instruction) => instruction.process(),
            Err(e) => Plan::refused(e),
        }
    } else if discriminator == Swap::DISCRIMINATOR {
        match Swap::try_from(data, accounts, sysvars.clock) {
            Ok(instruction) => instruction.process(),
            Err(e) => Plan::refused(e),
        }
    } else {
        Plan::refused(AmmError::MalformedInput)
    }
}

} // verus!
