//! The two capabilities of a ledger: reading it, and operating on it.
//!
//! Both are stated over the ledger's mathematical state. The caller of an
//! operation is passed in: the ledger itself knows of no environment.

use vstd::prelude::*;
use crate::account::AccountId;
use crate::errors::AppResult;
use crate::model::{outcome, Ledger};

verus! {

/// Read-only access to a ledger. Reads never fail and never consult the
/// pause switch.
pub trait TokenBalanceView: Sized {
    /// The mathematical state of this ledger.
    spec fn state(&self) -> Ledger;

    /// The amount that `owner` holds; zero for an unknown account.
    fn balance_of(&self, owner: AccountId) -> (amount: u128)
        ensures
            amount == self.state().balance_of(owner),
            amount >= 0,
    ;

    /// The amount in issue.
    fn total_supply(&self) -> (amount: u128)
        ensures
            amount == self.state().total_supply,
            amount >= 0,
    ;

    /// The credit that `owner` grants `spender`; zero where none was granted.
    fn allowance(&self, owner: AccountId, spender: AccountId) -> (amount: u128)
        ensures
            amount == self.state().allowance(owner, spender),
            amount >= 0,
    ;
}

/// The operations that change a ledger. Each either succeeds with `Ok(true)`,
/// applying its whole effect and recording one notification, or is refused
/// with an error and leaves the ledger exactly as it was.
pub trait TokenBalanceMut: TokenBalanceView {
    /// Moves `value` from `caller` to `to`.
    fn transfer(&mut self, caller: AccountId, to: AccountId, value: u128) -> (result: AppResult<bool>)
        ensures
            result == outcome(old(self).state().transfer_refusal(caller, to, value)),
            result is Ok ==> final(self).state() == old(self).state().transfer_effect(
                caller,
                to,
                value,
            ),
            result is Err ==> *final(self) == *old(self),
    ;

    /// Sets the credit that `caller` grants `spender` to `value`, replacing
    /// what was granted before.
    fn approve(&mut self, caller: AccountId, spender: AccountId, value: u128) -> (result: AppResult<bool>)
        ensures
            result == outcome(old(self).state().approve_refusal(caller, spender)),
            result is Ok ==> final(self).state() == old(self).state().approve_effect(
                caller,
                spender,
                value,
            ),
            result is Err ==> *final(self) == *old(self),
    ;

    /// Moves `value` from `from` to `to` on the credit that `from` granted
    /// `caller`, and lowers that credit by `value`.
    fn transfer_from(
        &mut self,
        caller: AccountId,
        from: AccountId,
        to: AccountId,
        value: u128,
    ) -> (result: AppResult<bool>)
        ensures
            result == outcome(old(self).state().transfer_from_refusal(caller, from, value)),
            result is Ok ==> final(self).state() == old(self).state().transfer_from_effect(
                caller,
                from,
                to,
                value,
            ),
            result is Err ==> *final(self) == *old(self),
    ;

    /// Takes `value` from the balance of `caller` and out of issue.
    fn burn(&mut self, caller: AccountId, value: u128) -> (result: AppResult<bool>)
        ensures
            result == outcome(old(self).state().burn_refusal(caller, value)),
            result is Ok ==> final(self).state() == old(self).state().burn_effect(caller, value),
            result is Err ==> *final(self) == *old(self),
    ;

    /// Issues `value` to `to`, or as much of it as the amount in issue has
    /// room for, so that the receiver gains exactly what the amount in issue
    /// gains; only the owner may.
    fn mint(&mut self, caller: AccountId, to: AccountId, value: u128) -> (result: AppResult<bool>)
        ensures
            result == outcome(old(self).state().mint_refusal(caller)),
            result is Ok ==> final(self).state() == old(self).state().mint_effect(to, value),
            result is Err ==> *final(self) == *old(self),
    ;

    /// Switches value-moving operations off; only the owner may, and the
    /// owner only while they are on.
    fn pause(&mut self, caller: AccountId) -> (result: AppResult<bool>)
        ensures
            result == outcome(old(self).state().pause_refusal(caller)),
            result is Ok ==> final(self).state() == old(self).state().pause_effect(),
            result is Err ==> *final(self) == *old(self),
    ;

    /// Switches value-moving operations on; only the owner may, whether or
    /// not they were off.
    fn unpause(&mut self, caller: AccountId) -> (result: AppResult<bool>)
        ensures
            result == outcome(old(self).state().unpause_refusal(caller)),
            result is Ok ==> final(self).state() == old(self).state().unpause_effect(),
            result is Err ==> *final(self) == *old(self),
    ;
}

} // verus!
