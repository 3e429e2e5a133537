//! What an instruction asks of the ledger: an ordered list of calls to the
//! token ledger and the account-creation service, and how the instruction
//! ends once they are done.

use crate::address::Address;
use crate::error::AmmError;
use crate::pda::seed_list;
use crate::state::{Config, PoolConfig};
use vstd::prelude::*;

verus! {

/// One call to an outside service. `signer_seeds` is the seed list of the
/// derived address in whose name the call is made; it is empty where the user
/// who signed the transaction is the authority.
#[derive(Clone, Debug, PartialEq, Eq)]
pub enum Effect {
    /// Create `to`, paid by `from`, with `space` bytes, owned by `owner`.
    CreateAccount {
        from: Address,
        to: Address,
        lamports: u64,
        space: u64,
        owner: Address,
        signer_seeds: Vec<Vec<u8>>,
    },
    /// Write the pool record into the data of `account`.
    StoreConfig { account: Address, config: Config },
    /// Make `mint` a mint with no supply.
    InitializeMint {
        mint: Address,
        decimals: u8,
        mint_authority: Address,
        freeze_authority: Option<Address>,
    },
    /// Move `amount` from one token account to another.
    Transfer { from: Address, to: Address, authority: Address, amount: u64, signer_seeds: Vec<Vec<u8>> },
    /// Mint `amount` of `mint` to `account`.
    MintTo {
        mint: Address,
        account: Address,
        mint_authority: Address,
        amount: u64,
        signer_seeds: Vec<Vec<u8>>,
    },
    /// Burn `amount` of `mint` from `account`.
    Burn { account: Address, mint: Address, authority: Address, amount: u64 },
}

/// An effect, as plain values.
pub enum EffectView {
    CreateAccount {
        from: Seq<u8>,
        to: Seq<u8>,
        lamports: u64,
        space: u64,
        owner: Seq<u8>,
        signer_seeds: Seq<Seq<u8>>,
    },
    StoreConfig { account: Seq<u8>, config: PoolConfig },
    InitializeMint {
        mint: Seq<u8>,
        decimals: u8,
        mint_authority: Seq<u8>,
        freeze_authority: Option<Seq<u8>>,
    },
    Transfer { from: Seq<u8>, to: Seq<u8>, authority: Seq<u8>, amount: u64, signer_seeds: Seq<Seq<u8>> },
    MintTo {
        mint: Seq<u8>,
        account: Seq<u8>,
        mint_authority: Seq<u8>,
        amount: u64,
        signer_seeds: Seq<Seq<u8>>,
    },
    Burn { account: Seq<u8>, mint: Seq<u8>, authority: Seq<u8>, amount: u64 },
}

impl View for Effect {
    type V = EffectView;

    open spec fn view(&self) -> EffectView {
        match *self {
            Effect::CreateAccount { from, to, lamports, space, owner, signer_seeds } => {
                EffectView::CreateAccount {
                    from: from@,
                    to: to@,
                    lamports,
                    space,
                    owner: owner@,
                    signer_seeds: seed_list(signer_seeds@),
                }
            },
            Effect::StoreConfig { account, config } => EffectView::StoreConfig {
                account: account@,
                config: config@,
            },
            Effect::InitializeMint { mint, decimals, mint_authority, freeze_authority } => {
                EffectView::InitializeMint {
                    mint: mint@,
                    decimals,
                    mint_authority: mint_authority@,
                    freeze_authority: match freeze_authority {
                        Some(address) => Some(address@),
                        None => None,
                    },
                }
            },
            Effect::Transfer { from, to, authority, amount, signer_seeds } => EffectView::Transfer {
                from: from@,
                to: to@,
                authority: authority@,
                amount,
                signer_seeds: seed_list(signer_seeds@),
            },
            Effect::MintTo { mint, account, mint_authority, amount, signer_seeds } => {
                EffectView::MintTo {
                    mint: mint@,
                    account: account@,
                    mint_authority: mint_authority@,
                    amount,
                    signer_seeds: seed_list(signer_seeds@),
                }
            },
            Effect::Burn { account, mint, authority, amount } => EffectView::Burn {
                account: account@,
                mint: mint@,
                authority: authority@,
                amount,
            },
        }
    }
}

/// What processing an instruction comes to. The effects are to be performed in
/// order, and the first that fails ends the instruction with its own error;
/// when all have succeeded the instruction ends with `outcome`. An instruction
/// that ends in an error leaves nothing behind: the ledger undoes the effects
/// performed before it.
#[derive(Debug, PartialEq, Eq)]
pub struct Plan {
    pub effects: Vec<Effect>,
    pub outcome: Result<(), AmmError>,
}

/// A plan, as plain values.
pub struct PlanView {
    pub effects: Seq<EffectView>,
    pub outcome: Result<(), AmmError>,
}

impl View for Plan {
    type V = PlanView;

    open spec fn view(&self) -> PlanView {
        PlanView {
            effects: Seq::new(self.effects@.len(), |i: int| self.effects@[i]@),
            outcome: self.outcome,
        }
    }
}

impl Plan {
    /// The plan of an instruction refused before it asked for anything.
    pub fn refused(error: AmmError) -> (plan: Plan)
        ensures
            plan@ == refused_plan(error),
    {
        let plan = Plan { effects: Vec::new(), outcome: Err(error) };
        proof {
            assert(plan@.effects =~= Seq::<EffectView>::empty());
        }
        plan
    }
}

/// No effect, and the error.
pub open spec fn refused_plan(error: AmmError) -> PlanView {
    PlanView { effects: Seq::<EffectView>::empty(), outcome: Err(error) }
}

/// The effects, and success once they are done.
pub open spec fn completed_plan(effects: Seq<EffectView>) -> PlanView {
    PlanView { effects, outcome: Ok(()) }
}

/// The seed list of a call made under the user's own signature: none.
pub fn user_signed() -> (seeds: Vec<Vec<u8>>)
    ensures
        seed_list(seeds@) == Seq::<Seq<u8>>::empty(),
{
    let seeds: Vec<Vec<u8>> = Vec::new();
    proof {
        assert(seed_list(seeds@) =~= Seq::<Seq<u8>>::empty());
    }
    seeds
}

} // verus!
