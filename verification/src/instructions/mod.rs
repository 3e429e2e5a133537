//! The four instructions: each decodes its payload, names and checks its
//! accounts, and plans what it asks of the ledger.

pub mod deposit;
pub mod initialize;
pub mod swap;
pub mod withdraw;
