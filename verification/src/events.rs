//! Notifications that the ledger records, one per successful operation.

use vstd::prelude::*;
use crate::account::AccountId;

verus! {

/// A notification of one successful operation.
#[derive(Debug, Clone, Copy, PartialEq, Eq)]
#[allow(inconsistent_fields)]
pub enum Event {
    /// Ownership passed from `from` (nobody, at construction) to `to`.
    OwnershipTransferred { from: Option<AccountId>, to: AccountId },
    /// `value` moved from `from` to `to`.
    Transfer { from: AccountId, to: AccountId, value: u128 },
    /// `owner` set the allowance of `spender` to `value`.
    Approval { owner: AccountId, spender: AccountId, value: u128 },
    /// `value` was issued to `to`.
    Mint { to: AccountId, value: u128 },
    /// `value` was withdrawn from `from` and from circulation.
    Burn { from: AccountId, value: u128 },
    /// The pause switch was set to `paused`.
    Pause { paused: bool },
}

} // verus!
