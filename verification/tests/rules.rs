use token_balance::{
    AccountId, Event, TokenBalance, TokenBalanceError, TokenBalanceMut, TokenBalanceView,
};

fn who(tag: u8) -> AccountId {
    AccountId::from_bytes([tag; 32])
}

fn sum_of_balances(ledger: &TokenBalance, accounts: &[AccountId]) -> u128 {
    let mut sum: u128 = 0;
    for account in accounts {
        sum += ledger.balance_of(*account);
    }
    sum
}

#[test]
fn transfers_keep_the_sum_of_balances_and_the_supply() {
    let d = who(1);
    let a = who(2);
    let b = who(3);
    let c = who(4);
    let all = [d, a, b, c];
    let mut ledger = TokenBalance::new(d);
    assert_eq!(ledger.mint(d, a, 1000), Ok(true));
    assert_eq!(ledger.mint(d, b, 500), Ok(true));
    assert_eq!(sum_of_balances(&ledger, &all), 1500);
    assert_eq!(ledger.total_supply(), 1500);

    assert_eq!(ledger.transfer(a, b, 300), Ok(true));
    assert_eq!(ledger.transfer(b, c, 800), Ok(true));
    assert_eq!(ledger.approve(c, a, 100), Ok(true));
    assert_eq!(ledger.transfer_from(a, c, d, 100), Ok(true));
    assert_eq!(ledger.transfer(a, c, 5000), Err(TokenBalanceError::InsufficientBalance));

    assert_eq!(ledger.balance_of(a), 700);
    assert_eq!(ledger.balance_of(b), 0);
    assert_eq!(ledger.balance_of(c), 700);
    assert_eq!(ledger.balance_of(d), 100);
    assert_eq!(sum_of_balances(&ledger, &all), 1500);
    assert_eq!(ledger.total_supply(), 1500);
}

#[test]
fn supply_follows_mint_and_burn_and_equals_the_sum_of_balances() {
    let d = who(1);
    let a = who(2);
    let b = who(3);
    let all = [d, a, b];
    let mut ledger = TokenBalance::new(d);
    assert_eq!(ledger.mint(d, a, 10), Ok(true));
    assert_eq!(ledger.total_supply(), 10);
    assert_eq!(ledger.mint(d, b, 7), Ok(true));
    assert_eq!(ledger.total_supply(), 17);
    assert_eq!(ledger.burn(b, 2), Ok(true));
    assert_eq!(ledger.total_supply(), 15);
    assert_eq!(sum_of_balances(&ledger, &all), 15);
    assert_eq!(ledger.approve(a, b, 3), Ok(true));
    assert_eq!(ledger.pause(d), Ok(true));
    assert_eq!(ledger.unpause(d), Ok(true));
    assert_eq!(ledger.total_supply(), 15);
    assert_eq!(sum_of_balances(&ledger, &all), 15);
}

#[test]
fn unknown_accounts_read_as_zero() {
    let ledger = TokenBalance::new(who(1));
    assert_eq!(ledger.balance_of(who(9)), 0);
    assert_eq!(ledger.allowance(who(9), who(8)), 0);
    assert_eq!(ledger.total_supply(), 0);
}

#[test]
fn transfer_to_oneself_is_refused_whatever_the_amount() {
    let d = who(1);
    let a = who(2);
    let mut ledger = TokenBalance::new(d);
    assert_eq!(ledger.transfer(a, a, 0), Err(TokenBalanceError::SenderIsSelf));
    assert_eq!(ledger.transfer(a, a, 5), Err(TokenBalanceError::SenderIsSelf));
    assert_eq!(ledger.mint(d, a, 100), Ok(true));
    assert_eq!(ledger.transfer(a, a, 5), Err(TokenBalanceError::SenderIsSelf));
    assert_eq!(ledger.transfer(a, a, u128::MAX), Err(TokenBalanceError::SenderIsSelf));
    assert_eq!(ledger.balance_of(a), 100);
}

#[test]
fn approving_oneself_is_refused_whatever_the_amount() {
    let d = who(1);
    let a = who(2);
    let mut ledger = TokenBalance::new(d);
    assert_eq!(ledger.approve(a, a, 0), Err(TokenBalanceError::SenderIsSelf));
    assert_eq!(ledger.approve(a, a, 77), Err(TokenBalanceError::SenderIsSelf));
    assert_eq!(ledger.allowance(a, a), 0);
}

#[test]
fn self_dealing_is_reported_even_while_paused() {
    let d = who(1);
    let a = who(2);
    let mut ledger = TokenBalance::new(d);
    assert_eq!(ledger.pause(d), Ok(true));
    assert_eq!(ledger.transfer(a, a, 1), Err(TokenBalanceError::SenderIsSelf));
    assert_eq!(ledger.approve(a, a, 1), Err(TokenBalanceError::SenderIsSelf));
}

#[test]
fn paused_ledger_refuses_every_value_moving_operation() {
    let d = who(1);
    let a = who(2);
    let b = who(3);
    let mut ledger = TokenBalance::new(d);
    assert_eq!(ledger.mint(d, a, 100), Ok(true));
    assert_eq!(ledger.approve(a, b, 50), Ok(true));
    assert_eq!(ledger.pause(d), Ok(true));
    let notes = ledger.events().len();

    assert_eq!(ledger.transfer(a, b, 10), Err(TokenBalanceError::Paused));
    assert_eq!(ledger.approve(a, b, 10), Err(TokenBalanceError::Paused));
    assert_eq!(ledger.transfer_from(b, a, d, 10), Err(TokenBalanceError::Paused));
    assert_eq!(ledger.mint(d, a, 10), Err(TokenBalanceError::Paused));
    assert_eq!(ledger.burn(a, 10), Err(TokenBalanceError::Paused));

    assert_eq!(ledger.balance_of(a), 100);
    assert_eq!(ledger.balance_of(b), 0);
    assert_eq!(ledger.balance_of(d), 0);
    assert_eq!(ledger.allowance(a, b), 50);
    assert_eq!(ledger.total_supply(), 100);
    assert_eq!(ledger.events().len(), notes);
}

#[test]
fn paused_ledger_reports_a_short_allowance_first() {
    let d = who(1);
    let a = who(2);
    let b = who(3);
    let mut ledger = TokenBalance::new(d);
    assert_eq!(ledger.mint(d, a, 100), Ok(true));
    assert_eq!(ledger.approve(a, b, 5), Ok(true));
    assert_eq!(ledger.pause(d), Ok(true));
    assert_eq!(
        ledger.transfer_from(b, a, d, 6),
        Err(TokenBalanceError::NotEnoughAllowance)
    );
    assert_eq!(ledger.transfer_from(b, a, d, 5), Err(TokenBalanceError::Paused));
}

#[test]
fn operations_work_again_after_unpause() {
    let d = who(1);
    let a = who(2);
    let b = who(3);
    let mut ledger = TokenBalance::new(d);
    assert_eq!(ledger.mint(d, a, 100), Ok(true));
    assert_eq!(ledger.pause(d), Ok(true));
    assert_eq!(ledger.transfer(a, b, 10), Err(TokenBalanceError::Paused));
    assert_eq!(ledger.unpause(d), Ok(true));
    assert_eq!(ledger.transfer(a, b, 10), Ok(true));
    assert_eq!(ledger.balance_of(b), 10);
}

#[test]
fn only_the_owner_mints_pauses_and_unpauses() {
    let d = who(1);
    let a = who(2);
    let mut ledger = TokenBalance::new(d);
    let notes = ledger.events().len();
    assert_eq!(ledger.mint(a, a, 10), Err(TokenBalanceError::NotAuthorized));
    assert_eq!(ledger.pause(a), Err(TokenBalanceError::NotAuthorized));
    assert_eq!(ledger.unpause(a), Err(TokenBalanceError::NotAuthorized));
    assert_eq!(ledger.balance_of(a), 0);
    assert_eq!(ledger.total_supply(), 0);
    assert!(!ledger.is_paused());
    assert_eq!(ledger.owner(), d);
    assert_eq!(ledger.events().len(), notes);
}

#[test]
fn a_stranger_cannot_pause_or_unpause_a_paused_ledger() {
    let d = who(1);
    let a = who(2);
    let mut ledger = TokenBalance::new(d);
    assert_eq!(ledger.mint(d, a, 10), Ok(true));
    assert_eq!(ledger.pause(d), Ok(true));
    let notes = ledger.events().len();
    assert_eq!(ledger.pause(a), Err(TokenBalanceError::NotAuthorized));
    assert_eq!(ledger.unpause(a), Err(TokenBalanceError::NotAuthorized));
    assert!(ledger.is_paused());
    assert_eq!(ledger.owner(), d);
    assert_eq!(ledger.balance_of(a), 10);
    assert_eq!(ledger.total_supply(), 10);
    assert_eq!(ledger.events().len(), notes);
}

#[test]
fn the_owner_pausing_twice_is_told_it_is_paused() {
    let d = who(1);
    let mut ledger = TokenBalance::new(d);
    assert_eq!(ledger.pause(d), Ok(true));
    assert_eq!(ledger.pause(d), Err(TokenBalanceError::Paused));
    assert!(ledger.is_paused());
}

#[test]
fn a_stranger_minting_on_a_paused_ledger_is_told_it_is_paused() {
    let d = who(1);
    let a = who(2);
    let mut ledger = TokenBalance::new(d);
    assert_eq!(ledger.pause(d), Ok(true));
    assert_eq!(ledger.mint(a, a, 10), Err(TokenBalanceError::Paused));
    assert_eq!(ledger.balance_of(a), 0);
    assert_eq!(ledger.total_supply(), 0);
}

#[test]
fn delegated_transfer_without_balance_keeps_the_allowance() {
    let d = who(1);
    let a = who(2);
    let b = who(3);
    let mut ledger = TokenBalance::new(d);
    assert_eq!(ledger.mint(d, a, 3), Ok(true));
    assert_eq!(ledger.approve(a, b, 10), Ok(true));
    assert_eq!(
        ledger.transfer_from(b, a, d, 5),
        Err(TokenBalanceError::InsufficientBalance)
    );
    assert_eq!(ledger.allowance(a, b), 10);
    assert_eq!(ledger.balance_of(a), 3);
    assert_eq!(ledger.balance_of(d), 0);
}

#[test]
fn delegated_transfer_without_any_allowance_is_refused() {
    let d = who(1);
    let a = who(2);
    let b = who(3);
    let mut ledger = TokenBalance::new(d);
    assert_eq!(ledger.mint(d, a, 100), Ok(true));
    assert_eq!(
        ledger.transfer_from(b, a, b, 1),
        Err(TokenBalanceError::NotEnoughAllowance)
    );
    assert_eq!(ledger.transfer_from(b, a, b, 0), Ok(true));
    assert_eq!(ledger.balance_of(a), 100);
}

#[test]
fn delegated_transfer_back_to_the_source_leaves_its_balance() {
    let d = who(1);
    let a = who(2);
    let b = who(3);
    let mut ledger = TokenBalance::new(d);
    assert_eq!(ledger.mint(d, a, 100), Ok(true));
    assert_eq!(ledger.approve(a, b, 30), Ok(true));
    assert_eq!(ledger.transfer_from(b, a, a, 20), Ok(true));
    assert_eq!(ledger.balance_of(a), 100);
    assert_eq!(ledger.allowance(a, b), 10);
    assert_eq!(ledger.total_supply(), 100);
}

#[test]
fn allowances_are_kept_per_owner_and_spender() {
    let d = who(1);
    let a = who(2);
    let b = who(3);
    let mut ledger = TokenBalance::new(d);
    assert_eq!(ledger.approve(a, b, 5), Ok(true));
    assert_eq!(ledger.approve(b, a, 9), Ok(true));
    assert_eq!(ledger.approve(a, d, 1), Ok(true));
    assert_eq!(ledger.allowance(a, b), 5);
    assert_eq!(ledger.allowance(b, a), 9);
    assert_eq!(ledger.allowance(a, d), 1);
    assert_eq!(ledger.allowance(d, a), 0);
    assert_eq!(ledger.approve(a, b, 0), Ok(true));
    assert_eq!(ledger.allowance(a, b), 0);
    assert_eq!(ledger.allowance(b, a), 9);
}

#[test]
fn mint_adds_only_what_the_supply_has_room_for() {
    let d = who(1);
    let a = who(2);
    let mut ledger = TokenBalance::new(d);
    assert_eq!(ledger.mint(d, a, u128::MAX - 1), Ok(true));
    assert_eq!(ledger.mint(d, a, 5), Ok(true));
    assert_eq!(ledger.balance_of(a), u128::MAX);
    assert_eq!(ledger.total_supply(), u128::MAX);
    assert_eq!(ledger.events()[2], Event::Mint { to: a, value: 5 });
}

#[test]
fn mint_to_another_account_shares_the_room_that_is_left() {
    let d = who(1);
    let a = who(2);
    let b = who(3);
    let mut ledger = TokenBalance::new(d);
    assert_eq!(ledger.mint(d, a, u128::MAX - 3), Ok(true));
    assert_eq!(ledger.mint(d, b, 10), Ok(true));
    assert_eq!(ledger.balance_of(a), u128::MAX - 3);
    assert_eq!(ledger.balance_of(b), 3);
    assert_eq!(ledger.total_supply(), u128::MAX);
}

#[test]
fn mint_on_a_full_supply_adds_nothing_and_keeps_the_balance_sheet() {
    let d = who(1);
    let a = who(2);
    let b = who(3);
    let mut ledger = TokenBalance::new(d);
    assert_eq!(ledger.mint(d, a, u128::MAX), Ok(true));
    assert_eq!(ledger.mint(d, b, 1), Ok(true));
    assert_eq!(ledger.total_supply(), u128::MAX);
    assert_eq!(ledger.balance_of(a), u128::MAX);
    assert_eq!(ledger.balance_of(b), 0);
    assert_eq!(
        ledger.balance_of(a).checked_add(ledger.balance_of(b)),
        Some(ledger.total_supply())
    );
    assert_eq!(ledger.events().len(), 3);
}

#[test]
fn transfer_after_a_full_supply_moves_value_without_loss() {
    let d = who(1);
    let a = who(2);
    let b = who(3);
    let mut ledger = TokenBalance::new(d);
    assert_eq!(ledger.mint(d, a, u128::MAX), Ok(true));
    assert_eq!(ledger.mint(d, b, 10), Ok(true));
    assert_eq!(ledger.transfer(b, a, 4), Err(TokenBalanceError::InsufficientBalance));
    assert_eq!(ledger.transfer(a, b, 4), Ok(true));
    assert_eq!(ledger.balance_of(a), u128::MAX - 4);
    assert_eq!(ledger.balance_of(b), 4);
    assert_eq!(ledger.total_supply(), u128::MAX);
}

#[test]
fn credit_into_a_full_balance_is_held_at_the_largest_amount() {
    let d = who(1);
    let a = who(2);
    let b = who(3);
    let mut ledger = TokenBalance::restore(d, false, 0);
    ledger.load_balance(a, u128::MAX);
    ledger.load_balance(b, 10);
    assert_eq!(ledger.transfer(b, a, 4), Ok(true));
    assert_eq!(ledger.balance_of(a), u128::MAX);
    assert_eq!(ledger.balance_of(b), 6);
}

#[test]
fn burn_on_a_ledger_with_too_small_a_supply_holds_it_at_zero() {
    let d = who(1);
    let a = who(2);
    let mut ledger = TokenBalance::restore(d, false, 3);
    ledger.load_balance(a, 10);
    assert_eq!(ledger.burn(a, 5), Ok(true));
    assert_eq!(ledger.balance_of(a), 5);
    assert_eq!(ledger.total_supply(), 0);
}

#[test]
fn transfer_of_nothing_succeeds_and_is_recorded() {
    let d = who(1);
    let a = who(2);
    let b = who(3);
    let mut ledger = TokenBalance::new(d);
    assert_eq!(ledger.transfer(a, b, 0), Ok(true));
    assert_eq!(ledger.balance_of(a), 0);
    assert_eq!(ledger.balance_of(b), 0);
    assert_eq!(
        ledger.events()[1],
        Event::Transfer { from: a, to: b, value: 0 }
    );
}

#[test]
fn the_owner_is_an_ordinary_holder() {
    let d = who(1);
    let a = who(2);
    let mut ledger = TokenBalance::new(d);
    assert_eq!(ledger.mint(d, d, 10), Ok(true));
    assert_eq!(ledger.transfer(d, a, 11), Err(TokenBalanceError::InsufficientBalance));
    assert_eq!(ledger.transfer(d, a, 10), Ok(true));
    assert_eq!(ledger.balance_of(d), 0);
    assert_eq!(ledger.balance_of(a), 10);
}

#[test]
fn restored_ledger_carries_on_where_the_kept_state_left_off() {
    let d = who(1);
    let a = who(2);
    let b = who(3);
    let mut ledger = TokenBalance::restore(d, false, 100);
    assert_eq!(ledger.events().len(), 0);
    assert_eq!(ledger.owner(), d);
    assert_eq!(ledger.total_supply(), 100);
    ledger.load_balance(a, 60);
    ledger.load_balance(b, 40);
    ledger.load_allowance(a, b, 25);
    assert_eq!(ledger.balance_of(a), 60);
    assert_eq!(ledger.allowance(a, b), 25);

    assert_eq!(ledger.transfer_from(b, a, b, 20), Ok(true));
    assert_eq!(ledger.balance_of(a), 40);
    assert_eq!(ledger.balance_of(b), 60);
    assert_eq!(ledger.allowance(a, b), 5);
    assert_eq!(
        ledger.events(),
        &vec![Event::Transfer { from: a, to: b, value: 20 }]
    );
}

#[test]
fn restored_paused_ledger_is_paused() {
    let d = who(1);
    let a = who(2);
    let mut ledger = TokenBalance::restore(d, true, 7);
    assert!(ledger.is_paused());
    ledger.load_balance(a, 7);
    assert_eq!(ledger.burn(a, 1), Err(TokenBalanceError::Paused));
    assert_eq!(ledger.unpause(d), Ok(true));
    assert_eq!(ledger.burn(a, 1), Ok(true));
    assert_eq!(ledger.total_supply(), 6);
}

#[test]
fn loading_a_balance_twice_keeps_the_last() {
    let d = who(1);
    let a = who(2);
    let mut ledger = TokenBalance::restore(d, false, 0);
    ledger.load_balance(a, 5);
    ledger.load_balance(a, 9);
    assert_eq!(ledger.balance_of(a), 9);
}
