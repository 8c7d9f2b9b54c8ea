use vstd::prelude::*;

verus! {

/// Why the token subsystem refused a transfer.
#[derive(Clone, Copy, Debug, PartialEq, Eq, Structural)]
pub enum TransferError {
    /// The presented authority is not the owner of the debited account.
    NotOwner,
    /// The debited or the credited account is frozen.
    AccountFrozen,
    /// The two accounts hold different mints.
    MintMismatch,
    /// The debited account holds less than the requested amount.
    InsufficientBalance,
    /// Crediting the destination would overflow its 64-bit balance.
    BalanceOverflow,
}

/// The single typed failure code a ledger operation returns. Every failure
/// aborts the whole operation: no partial mutation is ever observable.
#[derive(Clone, Copy, Debug, PartialEq, Eq, Structural)]
pub enum StakingError {
    /// The operation was asked to move zero tokens.
    ZeroAmount,
    /// A token account holds a different mint than the pool accepts.
    MintMismatch,
    /// The caller is not the owner of the stake record.
    Unauthorised,
    /// The presented bump does not derive the custody account's owner.
    InvalidDerivation,
    /// The pool record is not in its freshly allocated, zeroed state.
    AlreadyInitialised,
    /// The stake record holds less than the requested amount.
    InsufficientStake,
    /// Crediting a 64-bit ledger counter would overflow it.
    ArithmeticOverflow,
    /// Debiting a 64-bit ledger counter would underflow it.
    ArithmeticUnderflow,
    /// The token subsystem refused the custody transfer.
    TransferFailed,
}

} // verus!
