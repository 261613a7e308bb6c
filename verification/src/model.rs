//! The ledger as a mathematical value, and what each operation does to it.
//!
//! Every operation is described by two functions: its refusal, which names
//! the error the operation reports on a given state and input (or none), and
//! its effect, which is the state that a successful run leaves behind.

use vstd::prelude::*;
use crate::account::AccountId;
use crate::errors::{AppResult, TokenBalanceError};
use crate::events::Event;
use crate::totals::{amount_at, total};

verus! {

/// `a + b`, held at the largest amount where the sum would pass it.
pub open spec fn clamped_add(a: u128, b: u128) -> u128 {
    if a + b > u128::MAX {
        u128::MAX
    } else {
        (a + b) as u128
    }
}

/// `a - b`, held at zero where the difference would fall below it.
pub open spec fn clamped_sub(a: u128, b: u128) -> u128 {
    if a - b < 0 {
        0
    } else {
        (a - b) as u128
    }
}

/// What an operation returns: the error it was refused with, or success.
pub open spec fn outcome(refusal: Option<TokenBalanceError>) -> AppResult<bool> {
    match refusal {
        Some(error) => Err(error),
        None => Ok(true),
    }
}

/// The state of a ledger.
pub struct Ledger {
    /// The account that may mint, pause and unpause.
    pub owner: AccountId,
    /// Whether value-moving operations are switched off.
    pub paused: bool,
    /// The amount in issue.
    pub total_supply: u128,
    /// The amount that each account holds; no entry means zero.
    pub balances: Map<AccountId, u128>,
    /// The credit that each owner grants each spender, keyed by
    /// `(owner, spender)`; no entry means zero.
    pub allowances: Map<(AccountId, AccountId), u128>,
    /// The notifications recorded so far, oldest first.
    pub events: Seq<Event>,
}

impl Ledger {
    /// A ledger records finitely many balances and allowances.
    pub open spec fn wf(self) -> bool {
        &&& self.balances.dom().finite()
        &&& self.allowances.dom().finite()
    }

    /// The ledger right after `deployer` constructs it.
    pub open spec fn opened(deployer: AccountId) -> Ledger {
        Ledger {
            owner: deployer,
            paused: false,
            total_supply: 0,
            balances: Map::empty(),
            allowances: Map::empty(),
            events: seq![Event::OwnershipTransferred { from: None, to: deployer }],
        }
    }

    /// The amount that `account` holds.
    pub open spec fn balance_of(self, account: AccountId) -> u128 {
        amount_at(self.balances, account)
    }

    /// The credit that `owner` grants `spender`.
    pub open spec fn allowance(self, owner: AccountId, spender: AccountId) -> u128 {
        amount_at(self.allowances, (owner, spender))
    }

    /// The sum of all balances.
    pub open spec fn circulating(self) -> nat {
        total(self.balances)
    }

    /// Whether the amount in issue equals the sum of all balances.
    pub open spec fn conserved(self) -> bool {
        self.circulating() == self.total_supply
    }

    /// This ledger with `event` recorded last.
    pub open spec fn noted(self, event: Event) -> Ledger {
        Ledger { events: self.events.push(event), ..self }
    }

    /// This ledger with `value` taken from the balance of `from`.
    pub open spec fn debited(self, from: AccountId, value: u128) -> Ledger {
        Ledger {
            balances: self.balances.insert(from, clamped_sub(self.balance_of(from), value)),
            ..self
        }
    }

    /// This ledger with `value` added to the balance of `to`.
    pub open spec fn credited(self, to: AccountId, value: u128) -> Ledger {
        Ledger {
            balances: self.balances.insert(to, clamped_add(self.balance_of(to), value)),
            ..self
        }
    }

    /// This ledger with `value` moved from `from` to `to`: the debit first,
    /// then the credit, so that a move from an account to itself leaves its
    /// balance as it was.
    pub open spec fn moved(self, from: AccountId, to: AccountId, value: u128) -> Ledger {
        self.debited(from, value).credited(to, value)
    }

    /// How much of `value` the amount in issue has room for: all of it, or
    /// what is left up to the largest amount.
    pub open spec fn mintable(self, value: u128) -> u128 {
        if self.total_supply + value > u128::MAX {
            (u128::MAX - self.total_supply) as u128
        } else {
            value
        }
    }

    /// This ledger with the amount in issue raised by `value`.
    pub open spec fn issued(self, value: u128) -> Ledger {
        Ledger { total_supply: clamped_add(self.total_supply, value), ..self }
    }

    /// This ledger with the amount in issue lowered by `value`.
    pub open spec fn retired(self, value: u128) -> Ledger {
        Ledger { total_supply: clamped_sub(self.total_supply, value), ..self }
    }

    /// This ledger with the credit that `owner` grants `spender` set to `value`.
    pub open spec fn granted(self, owner: AccountId, spender: AccountId, value: u128) -> Ledger {
        Ledger { allowances: self.allowances.insert((owner, spender), value), ..self }
    }

    /// This ledger with the pause switch set to `paused`.
    pub open spec fn switched(self, paused: bool) -> Ledger {
        Ledger { paused, ..self }
    }

    /// Why taking `value` from `from` is refused: the ledger is paused, or
    /// `from` holds too little.
    pub open spec fn debit_refusal(self, from: AccountId, value: u128) -> Option<
        TokenBalanceError,
    > {
        if self.paused {
            Some(TokenBalanceError::Paused)
        } else if self.balance_of(from) < value {
            Some(TokenBalanceError::InsufficientBalance)
        } else {
            None
        }
    }

    /// Why `transfer` is refused.
    pub open spec fn transfer_refusal(self, caller: AccountId, to: AccountId, value: u128) -> Option<
        TokenBalanceError,
    > {
        if caller == to {
            Some(TokenBalanceError::SenderIsSelf)
        } else {
            self.debit_refusal(caller, value)
        }
    }

    /// What a successful `transfer` leaves behind.
    pub open spec fn transfer_effect(self, caller: AccountId, to: AccountId, value: u128) -> Ledger {
        self.moved(caller, to, value).noted(Event::Transfer { from: caller, to, value })
    }

    /// Why `approve` is refused.
    pub open spec fn approve_refusal(self, caller: AccountId, spender: AccountId) -> Option<
        TokenBalanceError,
    > {
        if caller == spender {
            Some(TokenBalanceError::SenderIsSelf)
        } else if self.paused {
            Some(TokenBalanceError::Paused)
        } else {
            None
        }
    }

    /// What a successful `approve` leaves behind.
    pub open spec fn approve_effect(self, caller: AccountId, spender: AccountId, value: u128) -> Ledger {
        self.granted(caller, spender, value).noted(
            Event::Approval { owner: caller, spender, value },
        )
    }

    /// Why `transfer_from` is refused.
    pub open spec fn transfer_from_refusal(self, caller: AccountId, from: AccountId, value: u128) -> Option<
        TokenBalanceError,
    > {
        if self.allowance(from, caller) < value {
            Some(TokenBalanceError::NotEnoughAllowance)
        } else {
            self.debit_refusal(from, value)
        }
    }

    /// What a successful `transfer_from` leaves behind. The allowance is
    /// lowered from the value it had before the transfer.
    pub open spec fn transfer_from_effect(
        self,
        caller: AccountId,
        from: AccountId,
        to: AccountId,
        value: u128,
    ) -> Ledger {
        self.moved(from, to, value).granted(
            from,
            caller,
            clamped_sub(self.allowance(from, caller), value),
        ).noted(Event::Transfer { from, to, value })
    }

    /// Why `burn` is refused.
    pub open spec fn burn_refusal(self, caller: AccountId, value: u128) -> Option<
        TokenBalanceError,
    > {
        self.debit_refusal(caller, value)
    }

    /// What a successful `burn` leaves behind.
    pub open spec fn burn_effect(self, caller: AccountId, value: u128) -> Ledger {
        self.debited(caller, value).retired(value).noted(Event::Burn { from: caller, value })
    }

    /// Why `mint` is refused.
    pub open spec fn mint_refusal(self, caller: AccountId) -> Option<TokenBalanceError> {
        if self.paused {
            Some(TokenBalanceError::Paused)
        } else if caller != self.owner {
            Some(TokenBalanceError::NotAuthorized)
        } else {
            None
        }
    }

    /// What a successful `mint` leaves behind. The receiver gains exactly
    /// what the amount in issue gains: `value`, or as much of it as the
    /// amount in issue has room for. The notification carries `value`.
    pub open spec fn mint_effect(self, to: AccountId, value: u128) -> Ledger {
        self.credited(to, self.mintable(value)).issued(self.mintable(value)).noted(
            Event::Mint { to, value },
        )
    }

    /// Why `pause` is refused: the caller is not the owner, or the owner
    /// pauses a ledger that is paused already.
    pub open spec fn pause_refusal(self, caller: AccountId) -> Option<TokenBalanceError> {
        if caller != self.owner {
            Some(TokenBalanceError::NotAuthorized)
        } else if self.paused {
            Some(TokenBalanceError::Paused)
        } else {
            None
        }
    }

    /// What a successful `pause` leaves behind.
    pub open spec fn pause_effect(self) -> Ledger {
        self.switched(true).noted(Event::Pause { paused: true })
    }

    /// Why `unpause` is refused.
    pub open spec fn unpause_refusal(self, caller: AccountId) -> Option<TokenBalanceError> {
        if caller != self.owner {
            Some(TokenBalanceError::NotAuthorized)
        } else {
            None
        }
    }

    /// What a successful `unpause` leaves behind.
    pub open spec fn unpause_effect(self) -> Ledger {
        self.switched(false).noted(Event::Pause { paused: false })
    }
}

} // verus!
