//! The single error type every instruction reports.

use vstd::prelude::*;

verus! {

/// Why an instruction was refused. Every check fails fast with exactly one of
/// these; nothing is downgraded or retried inside the library.
#[derive(Clone, Copy, Debug, PartialEq, Eq, Structural)]
pub enum AmmError {
    /// The payload has a length that no layout of the instruction has, carries
    /// a flag byte that is neither 0 nor 1, or names no known instruction.
    MalformedInput,
    /// The account list does not have exactly the instruction's arity.
    NotEnoughAccountKeys,
    /// The acting user did not sign the transaction.
    MissingRequiredSignature,
    /// An account has the wrong data length, or a token record is not owned by
    /// the token ledger.
    AccountShapeViolation,
    /// An account is not the one the derivation yields, or the pool record is
    /// not owned by this program.
    AddressMismatch,
    /// The pool is not in the lifecycle state the instruction needs.
    StateViolation,
    /// The curve cannot be evaluated on the observed reserves.
    ArithmeticFailure,
    /// A computed amount is below the floor the caller asked for.
    SlippageViolation,
    /// The clock oracle is past the deadline the caller set.
    Expired,
    /// A zero amount, equal mints, a wrong well-known program, or a value a
    /// setter refuses.
    InvalidArgument,
    /// The clock oracle could not be read.
    ClockUnavailable,
}

} // verus!
