//! Sequences of calls, and the ledger that a sequence leaves behind.

use vstd::prelude::*;
use crate::account::AccountId;
use crate::errors::TokenBalanceError;
use crate::model::Ledger;

verus! {

/// One call of an operation, with its caller and its arguments.
pub enum Call {
    /// `transfer(caller, to, value)`.
    Transfer { caller: AccountId, to: AccountId, value: u128 },
    /// `approve(caller, spender, value)`.
    Approve { caller: AccountId, spender: AccountId, value: u128 },
    /// `transfer_from(caller, from, to, value)`.
    TransferFrom { caller: AccountId, from: AccountId, to: AccountId, value: u128 },
    /// `burn(caller, value)`.
    Burn { caller: AccountId, value: u128 },
    /// `mint(caller, to, value)`.
    Mint { caller: AccountId, to: AccountId, value: u128 },
    /// `pause(caller)`.
    Pause { caller: AccountId },
    /// `unpause(caller)`.
    Unpause { caller: AccountId },
}

impl Call {
    /// Whether this call only moves value between accounts.
    pub open spec fn is_movement(self) -> bool {
        self is Transfer || self is TransferFrom
    }

    /// The account that makes this call.
    pub open spec fn caller(self) -> AccountId {
        match self {
            Call::Transfer { caller, .. } => caller,
            Call::Approve { caller, .. } => caller,
            Call::TransferFrom { caller, .. } => caller,
            Call::Burn { caller, .. } => caller,
            Call::Mint { caller, .. } => caller,
            Call::Pause { caller } => caller,
            Call::Unpause { caller } => caller,
        }
    }

    /// Whether this call is reserved to the owner.
    pub open spec fn is_owner_only(self) -> bool {
        self is Mint || self is Pause || self is Unpause
    }

    /// Whether this call is one of those that may change the amount in issue.
    pub open spec fn is_issuance(self) -> bool {
        self is Mint || self is Burn
    }
}

impl Ledger {
    /// Why `call` is refused on this ledger, if it is.
    pub open spec fn refusal(self, call: Call) -> Option<TokenBalanceError> {
        match call {
            Call::Transfer { caller, to, value } => self.transfer_refusal(caller, to, value),
            Call::Approve { caller, spender, value } => self.approve_refusal(caller, spender),
            Call::TransferFrom { caller, from, to, value } => self.transfer_from_refusal(
                caller,
                from,
                value,
            ),
            Call::Burn { caller, value } => self.burn_refusal(caller, value),
            Call::Mint { caller, to, value } => self.mint_refusal(caller),
            Call::Pause { caller } => self.pause_refusal(caller),
            Call::Unpause { caller } => self.unpause_refusal(caller),
        }
    }

    /// What `call` leaves behind where it succeeds.
    pub open spec fn effect(self, call: Call) -> Ledger {
        match call {
            Call::Transfer { caller, to, value } => self.transfer_effect(caller, to, value),
            Call::Approve { caller, spender, value } => self.approve_effect(
                caller,
                spender,
                value,
            ),
            Call::TransferFrom { caller, from, to, value } => self.transfer_from_effect(
                caller,
                from,
                to,
                value,
            ),
            Call::Burn { caller, value } => self.burn_effect(caller, value),
            Call::Mint { caller, to, value } => self.mint_effect(to, value),
            Call::Pause { caller } => self.pause_effect(),
            Call::Unpause { caller } => self.unpause_effect(),
        }
    }

    /// The ledger after `call`: its effect where it succeeds, this ledger
    /// unchanged where it is refused.
    pub open spec fn after(self, call: Call) -> Ledger {
        if self.refusal(call) is None {
            self.effect(call)
        } else {
            self
        }
    }

    /// The ledger after all of `calls`, made in order.
    pub open spec fn after_all(self, calls: Seq<Call>) -> Ledger
        decreases calls.len(),
    {
        if calls.len() == 0 {
            self
        } else {
            self.after_all(calls.drop_last()).after(calls.last())
        }
    }
}

} // verus!
