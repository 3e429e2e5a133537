//! Instruction processing for a constant-product market maker.
//!
//! An instruction arrives as a byte payload and an ordered list of accounts.
//! The library decodes the payload, checks the accounts, quotes the trade on
//! the curve and returns the ordered list of calls that the instruction asks
//! of the token ledger and the account-creation service. It performs none of
//! them itself: whoever embeds it does, and undoes them all when one fails.

pub mod account;
pub mod address;
pub mod bytes;
pub mod clock;
pub mod curve;
pub mod effect;
pub mod error;
pub mod instructions;
pub mod pda;
pub mod processor;
pub mod state;
pub mod validate;

pub use account::Account;
pub use address::{check_id, id, Address};
pub use curve::{SwapResult, XYAmounts};
pub use effect::{Effect, Plan};
pub use error::AmmError;
pub use instructions::deposit::{Deposit, DepositAccounts, DepositInstructionData};
pub use instructions::initialize::{Initialize, InitializeAccounts, InitializeInstructionData};
pub use instructions::swap::{Swap, SwapAccounts, SwapInstructionData};
pub use instructions::withdraw::{Withdraw, WithdrawAccounts, WithdrawInstructionData};
pub use processor::{process_instruction, Sysvars};
pub use state::{AmmState, Config};
