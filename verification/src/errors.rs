//! The closed set of failures a ledger operation can report.

use vstd::prelude::*;

verus! {

/// Why a ledger operation was refused. A refused operation changes nothing.
#[derive(Debug, Clone, Copy, PartialEq, Eq, Structural)]
pub enum TokenBalanceError {
    /// The debited account holds less than the requested amount.
    InsufficientBalance,
    /// The spender's allowance is below the requested amount.
    NotEnoughAllowance,
    /// The caller is not the owner of the ledger.
    NotAuthorized,
    /// The caller named itself as the counterparty.
    SenderIsSelf,
    /// The ledger is paused.
    Paused,
}

/// Result of a ledger operation.
pub type AppResult<T> = Result<T, TokenBalanceError>;

} // verus!
