//! The ledger: balances, allowances, the amount in issue, the pause switch
//! and the owner, held as one value that each operation borrows.

use vstd::prelude::*;
use crate::account::AccountId;
use crate::errors::{AppResult, TokenBalanceError};
use crate::events::Event;
use crate::interfaces::{TokenBalanceMut, TokenBalanceView};
use crate::model::Ledger;
use crate::table::Table;

verus! {

/// A token ledger. All of its state is owned by this one value; an
/// operation either applies in full or leaves the value untouched.
pub struct TokenBalance {
    owner: AccountId,
    balances: Table<AccountId>,
    allowances: Table<(AccountId, AccountId)>,
    is_paused: bool,
    total_supply: u128,
    events: Vec<Event>,
}

/// What a guard returns: the error it found, or nothing.
pub open spec fn guarded(refusal: Option<TokenBalanceError>) -> AppResult<()> {
    match refusal {
        Some(error) => Err(error),
        None => Ok(()),
    }
}

impl TokenBalance {
    /// A ledger owned by `deployer`: nothing held, nothing granted, nothing
    /// in issue, not paused, and the change of ownership from nobody to
    /// `deployer` recorded.
    pub fn new(deployer: AccountId) -> (ledger: Self)
        ensures
            ledger.state() == Ledger::opened(deployer),
    {
        let mut events: Vec<Event> = Vec::new();
        events.push(Event::OwnershipTransferred { from: None, to: deployer });
        assert(events@ =~= seq![Event::OwnershipTransferred { from: None, to: deployer }]);
        TokenBalance {
            owner: deployer,
            balances: Table::new(),
            allowances: Table::new(),
            is_paused: false,
            total_supply: 0,
            events,
        }
    }

    /// A ledger with the given owner, pause switch and amount in issue, as
    /// read back from where they were kept; it holds no balance, no
    /// allowance and no notification yet.
    pub fn restore(owner: AccountId, is_paused: bool, total_supply: u128) -> (ledger: Self)
        ensures
            ledger.state() == (Ledger {
                owner,
                paused: is_paused,
                total_supply,
                balances: Map::empty(),
                allowances: Map::empty(),
                events: Seq::empty(),
            }),
    {
        TokenBalance {
            owner,
            balances: Table::new(),
            allowances: Table::new(),
            is_paused,
            total_supply,
            events: Vec::new(),
        }
    }

    /// Puts back the balance of `account` as it was kept elsewhere. This is
    /// no ledger operation: it checks nothing and records no notification.
    pub fn load_balance(&mut self, account: AccountId, amount: u128)
        ensures
            final(self).state() == (Ledger {
                balances: old(self).state().balances.insert(account, amount),
                ..old(self).state()
            }),
    {
        self.balances.insert(account, amount);
    }

    /// Puts back the credit that `owner` grants `spender` as it was kept
    /// elsewhere. This is no ledger operation: it checks nothing and records
    /// no notification.
    pub fn load_allowance(&mut self, owner: AccountId, spender: AccountId, amount: u128)
        ensures
            final(self).state() == old(self).state().granted(owner, spender, amount),
    {
        self._grant(owner, spender, amount);
    }

    /// The account that may mint, pause and unpause.
    pub fn owner(&self) -> (owner: AccountId)
        ensures
            owner == self.state().owner,
    {
        self.owner
    }

    /// Whether value-moving operations are switched off.
    pub fn is_paused(&self) -> (paused: bool)
        ensures
            paused == self.state().paused,
    {
        self.is_paused
    }

    /// The notifications recorded so far, oldest first.
    pub fn events(&self) -> (events: &Vec<Event>)
        ensures
            events@ == self.state().events,
    {
        &self.events
    }

    /// Every ledger records finitely many balances and allowances.
    pub proof fn lemma_state_wf(self)
        ensures
            self.state().wf(),
    {
        self.balances.lemma_finite();
        self.allowances.lemma_finite();
    }

    /// Records `event` after all earlier notifications.
    fn _note(&mut self, event: Event)
        ensures
            final(self).state() == old(self).state().noted(event),
    {
        self.events.push(event);
    }

    /// Issues `value` to `to`, or as much of it as the amount in issue has
    /// room for: the balance of `to` and the amount in issue gain the same.
    fn _mint(&mut self, to: AccountId, value: u128)
        ensures
            final(self).state() == old(self).state().credited(
                to,
                old(self).state().mintable(value),
            ).issued(old(self).state().mintable(value)),
    {
        let room: u128 = u128::MAX - self.total_supply;
        let added: u128 = if value > room {
            room
        } else {
            value
        };
        self._credit(to, added);
        self._increase_total_supply(added, true);
    }

    /// Raises the amount in issue by `value` where `increase` is set, and
    /// lowers it by `value` where it is not.
    fn _increase_total_supply(&mut self, value: u128, increase: bool)
        ensures
            increase ==> final(self).state() == old(self).state().issued(value),
            !increase ==> final(self).state() == old(self).state().retired(value),
    {
        match increase {
            false => self.total_supply = self.total_supply.saturating_sub(value),
            _ => self.total_supply = self.total_supply.saturating_add(value),
        }
    }

    /// Takes `value` from the balance of `from`, unless the ledger is paused
    /// or `from` holds too little. Every movement of value starts here.
    fn _debit(&mut self, from: AccountId, value: u128) -> (result: AppResult<()>)
        ensures
            result == guarded(old(self).state().debit_refusal(from, value)),
            result is Ok ==> final(self).state() == old(self).state().debited(from, value),
            result is Err ==> *final(self) == *old(self),
    {
        self._assert_not_pause(self.is_paused)?;
        let balance_from: u128 = self.balances.get(&from);
        if balance_from < value {
            return Err(TokenBalanceError::InsufficientBalance);
        }
        self.balances.insert(from, balance_from.saturating_sub(value));
        Ok(())
    }

    /// Adds `value` to the balance of `to`.
    fn _credit(&mut self, to: AccountId, value: u128)
        ensures
            final(self).state() == old(self).state().credited(to, value),
    {
        let balance_to: u128 = self.balances.get(&to);
        self.balances.insert(to, balance_to.saturating_add(value));
    }

    /// Moves `value` from `from` to `to`: the debit first, then the credit,
    /// so that a move from an account to itself leaves its balance as it was.
    fn _transfer(&mut self, from: AccountId, to: AccountId, value: u128) -> (result: AppResult<()>)
        ensures
            result == guarded(old(self).state().debit_refusal(from, value)),
            result is Ok ==> final(self).state() == old(self).state().moved(from, to, value),
            result is Err ==> *final(self) == *old(self),
    {
        self._debit(from, value)?;
        self._credit(to, value);
        Ok(())
    }

    /// Sets the credit that `owner` grants `spender` to `value`, unless the
    /// ledger is paused.
    fn _approve(&mut self, owner: AccountId, spender: AccountId, value: u128) -> (result: AppResult<()>)
        ensures
            result == guarded(
                if old(self).state().paused {
                    Some(TokenBalanceError::Paused)
                } else {
                    None
                },
            ),
            result is Ok ==> final(self).state() == old(self).state().granted(owner, spender, value),
            result is Err ==> *final(self) == *old(self),
    {
        self._assert_not_pause(self.is_paused)?;
        self._grant(owner, spender, value);
        Ok(())
    }

    /// Sets the credit that `owner` grants `spender` to `value`. The pause
    /// switch is the caller's to consult.
    fn _grant(&mut self, owner: AccountId, spender: AccountId, value: u128)
        ensures
            final(self).state() == old(self).state().granted(owner, spender, value),
    {
        self.allowances.insert((owner, spender), value);
    }

    /// Refuses any caller but the owner.
    fn _only_owner(&self, caller: AccountId) -> (result: AppResult<()>)
        ensures
            result == if caller == self.state().owner {
                Ok::<(), TokenBalanceError>(())
            } else {
                Err::<(), TokenBalanceError>(TokenBalanceError::NotAuthorized)
            },
    {
        if !caller.same(&self.owner) {
            return Err(TokenBalanceError::NotAuthorized);
        }
        Ok(())
    }

    /// Refuses a `value` above the credit that `from` grants `caller`.
    fn _check_allowance(&self, from: AccountId, caller: AccountId, value: u128) -> (result: AppResult<()>)
        ensures
            result == if self.state().allowance(from, caller) < value {
                Err::<(), TokenBalanceError>(TokenBalanceError::NotEnoughAllowance)
            } else {
                Ok::<(), TokenBalanceError>(())
            },
    {
        let allowance: u128 = self.allowance(from, caller);
        if allowance < value {
            return Err(TokenBalanceError::NotEnoughAllowance);
        }
        Ok(())
    }

    /// Refuses an account that deals with itself.
    fn _check_to_not_self(&self, from: AccountId, to: AccountId) -> (result: AppResult<()>)
        ensures
            result == if from == to {
                Err::<(), TokenBalanceError>(TokenBalanceError::SenderIsSelf)
            } else {
                Ok::<(), TokenBalanceError>(())
            },
    {
        if from.same(&to) {
            return Err(TokenBalanceError::SenderIsSelf);
        }
        Ok(())
    }

    /// Refuses where `paused` is set.
    fn _assert_not_pause(&self, paused: bool) -> (result: AppResult<()>)
        ensures
            result == if paused {
                Err::<(), TokenBalanceError>(TokenBalanceError::Paused)
            } else {
                Ok::<(), TokenBalanceError>(())
            },
    {
        if paused {
            return Err(TokenBalanceError::Paused);
        }
        Ok(())
    }

    /// Sets the pause switch to `pause`.
    fn _pause_contract(&mut self, pause: bool) -> (result: AppResult<()>)
        ensures
            result is Ok,
            final(self).state() == old(self).state().switched(pause),
    {
        match pause {
            true => self.is_paused = true,
            false => self.is_paused = false,
        }
        Ok(())
    }
}

impl TokenBalanceView for TokenBalance {
    closed spec fn state(&self) -> Ledger {
        Ledger {
            owner: self.owner,
            paused: self.is_paused,
            total_supply: self.total_supply,
            balances: self.balances@,
            allowances: self.allowances@,
            events: self.events@,
        }
    }

    fn balance_of(&self, owner: AccountId) -> (amount: u128) {
        self.balances.get(&owner)
    }

    fn total_supply(&self) -> (amount: u128) {
        self.total_supply
    }

    fn allowance(&self, owner: AccountId, spender: AccountId) -> (amount: u128) {
        self.allowances.get(&(owner, spender))
    }
}

impl TokenBalanceMut for TokenBalance {
    fn transfer(&mut self, caller: AccountId, to: AccountId, value: u128) -> (result: AppResult<bool>) {
        self._check_to_not_self(caller, to)?;
        self._transfer(caller, to, value)?;
        self._note(Event::Transfer { from: caller, to, value });
        Ok(true)
    }

    fn approve(&mut self, caller: AccountId, spender: AccountId, value: u128) -> (result: AppResult<bool>) {
        self._check_to_not_self(caller, spender)?;
        self._approve(caller, spender, value)?;
        self._note(Event::Approval { owner: caller, spender, value });
        Ok(true)
    }

    fn transfer_from(
        &mut self,
        caller: AccountId,
        from: AccountId,
        to: AccountId,
        value: u128,
    ) -> (result: AppResult<bool>) {
        let allowance: u128 = self.allowance(from, caller);
        self._check_allowance(from, caller, value)?;
        self._transfer(from, to, value)?;
        self._grant(from, caller, allowance.saturating_sub(value));
        self._note(Event::Transfer { from, to, value });
        Ok(true)
    }

    fn burn(&mut self, caller: AccountId, value: u128) -> (result: AppResult<bool>) {
        self._debit(caller, value)?;
        self._increase_total_supply(value, false);
        self._note(Event::Burn { from: caller, value });
        Ok(true)
    }

    fn mint(&mut self, caller: AccountId, to: AccountId, value: u128) -> (result: AppResult<bool>) {
        self._assert_not_pause(self.is_paused)?;
        self._only_owner(caller)?;
        self._mint(to, value);
        self._note(Event::Mint { to, value });
        Ok(true)
    }

    fn pause(&mut self, caller: AccountId) -> (result: AppResult<bool>) {
        self._only_owner(caller)?;
        self._assert_not_pause(self.is_paused)?;
        self._pause_contract(true)?;
        self._note(Event::Pause { paused: true });
        Ok(true)
    }

    fn unpause(&mut self, caller: AccountId) -> (result: AppResult<bool>) {
        self._only_owner(caller)?;
        self._pause_contract(false)?;
        self._note(Event::Pause { paused: false });
        Ok(true)
    }
}

} // verus!
