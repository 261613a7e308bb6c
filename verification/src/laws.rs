//! What holds of every ledger, whatever was done to it.
//!
//! The laws are stated over the ledger's mathematical state and over the
//! refusal and the effect of each operation, which is what the operations
//! themselves promise.

use vstd::prelude::*;
use crate::account::AccountId;
use crate::errors::TokenBalanceError;
use crate::history::Call;
use crate::model::{clamped_add, Ledger};
use crate::totals::{
    lemma_amount_within_total,
    lemma_total_empty,
    lemma_total_insert,
    lemma_two_amounts_within_total,
};

verus! {

/// Taking from an account what it holds lowers the sum of all balances by
/// just that much, and touches no other balance.
pub proof fn lemma_debited(ledger: Ledger, from: AccountId, value: u128)
    requires
        ledger.wf(),
        ledger.balance_of(from) >= value,
    ensures
        ledger.debited(from, value).wf(),
        ledger.debited(from, value).circulating() == ledger.circulating() - value,
        ledger.debited(from, value).balance_of(from) == ledger.balance_of(from) - value,
        forall|other: AccountId|
            other != from ==> ledger.debited(from, value).balance_of(other) == ledger.balance_of(
                other,
            ),
{
    lemma_total_insert(ledger.balances, from, (ledger.balance_of(from) - value) as u128);
}

/// Adding to an account raises the sum of all balances by what the account
/// gained, and touches no other balance.
pub proof fn lemma_credited(ledger: Ledger, to: AccountId, value: u128)
    requires
        ledger.wf(),
    ensures
        ledger.credited(to, value).wf(),
        ledger.credited(to, value).circulating() == ledger.circulating() - ledger.balance_of(to)
            + clamped_add(ledger.balance_of(to), value),
        ledger.credited(to, value).balance_of(to) == clamped_add(ledger.balance_of(to), value),
        forall|other: AccountId|
            other != to ==> ledger.credited(to, value).balance_of(other) == ledger.balance_of(
                other,
            ),
{
    lemma_total_insert(ledger.balances, to, clamped_add(ledger.balance_of(to), value));
}

/// A new ledger is conserved: nothing is in issue and nothing is held.
pub proof fn law_opened_conserved(deployer: AccountId)
    ensures
        Ledger::opened(deployer).wf(),
        Ledger::opened(deployer).conserved(),
        Ledger::opened(deployer).balance_of(deployer) == 0,
{
    lemma_total_empty::<AccountId>();
}

/// A successful transfer leaves the sum of all balances and the amount in
/// issue as they were, provided the receiving balance has room for the
/// amount.
pub proof fn law_transfer_keeps_circulation(
    ledger: Ledger,
    caller: AccountId,
    to: AccountId,
    value: u128,
)
    requires
        ledger.wf(),
        ledger.transfer_refusal(caller, to, value) is None,
        ledger.balance_of(to) + value <= u128::MAX,
    ensures
        ledger.transfer_effect(caller, to, value).wf(),
        ledger.transfer_effect(caller, to, value).circulating() == ledger.circulating(),
        ledger.transfer_effect(caller, to, value).total_supply == ledger.total_supply,
{
    lemma_debited(ledger, caller, value);
    lemma_credited(ledger.debited(caller, value), to, value);
}

/// A successful delegated transfer leaves the sum of all balances and the
/// amount in issue as they were, provided the receiving balance has room for
/// the amount or the amount returns to the account it came from.
pub proof fn law_transfer_from_keeps_circulation(
    ledger: Ledger,
    caller: AccountId,
    from: AccountId,
    to: AccountId,
    value: u128,
)
    requires
        ledger.wf(),
        ledger.transfer_from_refusal(caller, from, value) is None,
        from == to || ledger.balance_of(to) + value <= u128::MAX,
    ensures
        ledger.transfer_from_effect(caller, from, to, value).wf(),
        ledger.transfer_from_effect(caller, from, to, value).circulating() == ledger.circulating(),
        ledger.transfer_from_effect(caller, from, to, value).total_supply == ledger.total_supply,
{
    lemma_debited(ledger, from, value);
    lemma_credited(ledger.debited(from, value), to, value);
}

/// In a conserved ledger every balance has room for whatever another
/// account can pay out of what it holds.
pub proof fn lemma_conserved_has_room(ledger: Ledger, from: AccountId, to: AccountId, value: u128)
    requires
        ledger.wf(),
        ledger.conserved(),
        from != to,
        ledger.balance_of(from) >= value,
    ensures
        ledger.balance_of(to) + value <= u128::MAX,
{
    lemma_two_amounts_within_total(ledger.balances, from, to);
}

/// A successful transfer keeps a conserved ledger conserved.
pub proof fn law_transfer_conserves(ledger: Ledger, caller: AccountId, to: AccountId, value: u128)
    requires
        ledger.wf(),
        ledger.conserved(),
        ledger.transfer_refusal(caller, to, value) is None,
    ensures
        ledger.transfer_effect(caller, to, value).wf(),
        ledger.transfer_effect(caller, to, value).conserved(),
        ledger.transfer_effect(caller, to, value).circulating() == ledger.circulating(),
{
    lemma_conserved_has_room(ledger, caller, to, value);
    law_transfer_keeps_circulation(ledger, caller, to, value);
}

/// A successful delegated transfer keeps a conserved ledger conserved.
pub proof fn law_transfer_from_conserves(
    ledger: Ledger,
    caller: AccountId,
    from: AccountId,
    to: AccountId,
    value: u128,
)
    requires
        ledger.wf(),
        ledger.conserved(),
        ledger.transfer_from_refusal(caller, from, value) is None,
    ensures
        ledger.transfer_from_effect(caller, from, to, value).wf(),
        ledger.transfer_from_effect(caller, from, to, value).conserved(),
        ledger.transfer_from_effect(caller, from, to, value).circulating() == ledger.circulating(),
{
    if from != to {
        lemma_conserved_has_room(ledger, from, to, value);
    }
    law_transfer_from_keeps_circulation(ledger, caller, from, to, value);
}

/// A successful burn lowers the amount in issue and the sum of all balances
/// by the amount burnt, and so keeps a conserved ledger conserved.
pub proof fn law_burn_conserves(ledger: Ledger, caller: AccountId, value: u128)
    requires
        ledger.wf(),
        ledger.conserved(),
        ledger.burn_refusal(caller, value) is None,
    ensures
        ledger.burn_effect(caller, value).wf(),
        ledger.burn_effect(caller, value).conserved(),
        ledger.burn_effect(caller, value).total_supply == ledger.total_supply - value,
        ledger.burn_effect(caller, value).circulating() == ledger.circulating() - value,
{
    lemma_debited(ledger, caller, value);
    lemma_amount_within_total(ledger.balances, caller);
}

/// A successful mint keeps a conserved ledger conserved, whatever the
/// amount: the receiver gains exactly what the amount in issue gains, which
/// is the amount asked for or, where the amount in issue has no room for
/// all of it, what is left up to the largest amount.
pub proof fn law_mint_conserves(ledger: Ledger, caller: AccountId, to: AccountId, value: u128)
    requires
        ledger.wf(),
        ledger.conserved(),
        ledger.mint_refusal(caller) is None,
    ensures
        ledger.mint_effect(to, value).wf(),
        ledger.mint_effect(to, value).conserved(),
        ledger.mint_effect(to, value).total_supply == ledger.total_supply + ledger.mintable(value),
        ledger.mint_effect(to, value).balance_of(to) == ledger.balance_of(to) + ledger.mintable(
            value,
        ),
        ledger.mint_effect(to, value).circulating() == ledger.circulating() + ledger.mintable(
            value,
        ),
        ledger.total_supply + value <= u128::MAX ==> ledger.mintable(value) == value,
        ledger.total_supply + value > u128::MAX ==> ledger.mint_effect(to, value).total_supply
            == u128::MAX,
{
    lemma_amount_within_total(ledger.balances, to);
    lemma_credited(ledger, to, ledger.mintable(value));
}

/// Approving, pausing and unpausing touch neither a balance nor the amount
/// in issue, and so keep a conserved ledger conserved.
pub proof fn law_bookkeeping_conserves(
    ledger: Ledger,
    caller: AccountId,
    spender: AccountId,
    value: u128,
)
    requires
        ledger.wf(),
    ensures
        ledger.approve_effect(caller, spender, value).wf(),
        ledger.approve_effect(caller, spender, value).balances == ledger.balances,
        ledger.approve_effect(caller, spender, value).total_supply == ledger.total_supply,
        ledger.pause_effect().wf(),
        ledger.pause_effect().balances == ledger.balances,
        ledger.pause_effect().total_supply == ledger.total_supply,
        ledger.unpause_effect().wf(),
        ledger.unpause_effect().balances == ledger.balances,
        ledger.unpause_effect().total_supply == ledger.total_supply,
        ledger.conserved() ==> ledger.approve_effect(caller, spender, value).conserved()
            && ledger.pause_effect().conserved() && ledger.unpause_effect().conserved(),
{
}

/// No balance, no allowance and no amount in issue is below zero.
pub proof fn law_amounts_non_negative(ledger: Ledger, owner: AccountId, spender: AccountId)
    ensures
        ledger.balance_of(owner) >= 0,
        ledger.allowance(owner, spender) >= 0,
        ledger.total_supply >= 0,
        ledger.circulating() >= 0,
{
}

/// The step that moves value hides no shortfall. It is taken exactly when
/// the ledger is not paused and the source holds the amount. Between two
/// accounts the source then loses exactly the amount, never clamped, and
/// the receiver gains it, held at the largest amount; from an account to
/// itself the balance stays as it was. No other balance, no allowance and
/// not the amount in issue changes.
pub proof fn law_movement_exact(ledger: Ledger, from: AccountId, to: AccountId, value: u128)
    requires
        ledger.wf(),
    ensures
        ledger.debit_refusal(from, value) is None <==> !ledger.paused && ledger.balance_of(from)
            >= value,
        ledger.debit_refusal(from, value) is None ==> {
            let after = ledger.moved(from, to, value);
            &&& after.wf()
            &&& from != to ==> after.balance_of(from) == ledger.balance_of(from) - value
            &&& from != to ==> after.balance_of(from) >= 0
            &&& from != to ==> after.balance_of(to) == clamped_add(ledger.balance_of(to), value)
            &&& from == to ==> after.balance_of(from) == ledger.balance_of(from)
            &&& forall|other: AccountId|
                other != from && other != to ==> after.balance_of(other) == ledger.balance_of(
                    other,
                )
            &&& after.allowances == ledger.allowances
            &&& after.total_supply == ledger.total_supply
            &&& after.paused == ledger.paused
            &&& after.owner == ledger.owner
            &&& after.events == ledger.events
        },
{
    if ledger.debit_refusal(from, value) is None {
        lemma_debited(ledger, from, value);
        lemma_credited(ledger.debited(from, value), to, value);
    }
}

/// No amount that an operation writes falls below zero or is cut off at
/// zero: a debit leaves exactly the balance less the amount, a delegated
/// transfer leaves exactly the allowance less the amount, and on a conserved
/// ledger a burn leaves exactly the amount in issue less the amount.
pub proof fn law_no_shortfall(
    ledger: Ledger,
    caller: AccountId,
    from: AccountId,
    to: AccountId,
    value: u128,
)
    requires
        ledger.wf(),
    ensures
        ledger.debit_refusal(from, value) is None ==> ledger.debited(from, value).balance_of(from)
            == ledger.balance_of(from) - value,
        ledger.transfer_from_refusal(caller, from, value) is None ==> ledger.transfer_from_effect(
            caller,
            from,
            to,
            value,
        ).allowance(from, caller) == ledger.allowance(from, caller) - value,
        ledger.conserved() && ledger.burn_refusal(caller, value) is None ==> ledger.burn_effect(
            caller,
            value,
        ).total_supply == ledger.total_supply - value,
{
    if ledger.debit_refusal(from, value) is None {
        lemma_debited(ledger, from, value);
    }
    if ledger.conserved() && ledger.burn_refusal(caller, value) is None {
        law_burn_conserves(ledger, caller, value);
    }
}

/// An account that names itself as the receiver of a transfer or as its own
/// spender is refused, whatever the amount, the balance or the pause switch.
pub proof fn law_self_dealing_refused(ledger: Ledger, caller: AccountId, value: u128)
    ensures
        ledger.transfer_refusal(caller, caller, value) == Some(TokenBalanceError::SenderIsSelf),
        ledger.approve_refusal(caller, caller) == Some(TokenBalanceError::SenderIsSelf),
{
}

/// While the ledger is paused, minting and burning are refused as paused,
/// and so are a transfer and an approval between two different accounts,
/// and a delegated transfer that the allowance covers.
pub proof fn law_paused_refuses(
    ledger: Ledger,
    caller: AccountId,
    from: AccountId,
    to: AccountId,
    value: u128,
)
    requires
        ledger.paused,
    ensures
        ledger.mint_refusal(caller) == Some(TokenBalanceError::Paused),
        ledger.burn_refusal(caller, value) == Some(TokenBalanceError::Paused),
        caller != to ==> ledger.transfer_refusal(caller, to, value) == Some(
            TokenBalanceError::Paused,
        ),
        caller != to ==> ledger.approve_refusal(caller, to) == Some(TokenBalanceError::Paused),
        ledger.allowance(from, caller) >= value ==> ledger.transfer_from_refusal(
            caller,
            from,
            value,
        ) == Some(TokenBalanceError::Paused),
{
}

/// While the ledger is paused no value-moving operation succeeds, whatever
/// its input.
pub proof fn law_paused_blocks(
    ledger: Ledger,
    caller: AccountId,
    from: AccountId,
    to: AccountId,
    value: u128,
)
    requires
        ledger.paused,
    ensures
        ledger.transfer_refusal(caller, to, value) is Some,
        ledger.approve_refusal(caller, to) is Some,
        ledger.transfer_from_refusal(caller, from, value) is Some,
        ledger.mint_refusal(caller) is Some,
        ledger.burn_refusal(caller, value) is Some,
{
}

/// The last approval wins: a second approval replaces the first.
pub proof fn law_allowance_overwrite(
    ledger: Ledger,
    owner: AccountId,
    spender: AccountId,
    first: u128,
    second: u128,
)
    requires
        ledger.approve_refusal(owner, spender) is None,
    ensures
        ledger.approve_effect(owner, spender, first).allowance(owner, spender) == first,
        ledger.approve_effect(owner, spender, first).approve_refusal(owner, spender) is None,
        ledger.approve_effect(owner, spender, first).approve_effect(
            owner,
            spender,
            second,
        ).allowance(owner, spender) == second,
{
}

/// A successful delegated transfer lowers the allowance it drew on by the
/// amount moved, and leaves every other allowance as it was; a later request
/// above what is left is refused for want of allowance.
pub proof fn law_allowance_spend_down(
    ledger: Ledger,
    caller: AccountId,
    from: AccountId,
    to: AccountId,
    value: u128,
    next: u128,
)
    requires
        ledger.transfer_from_refusal(caller, from, value) is None,
    ensures
        ledger.transfer_from_effect(caller, from, to, value).allowance(from, caller)
            == ledger.allowance(from, caller) - value,
        forall|owner: AccountId, spender: AccountId|
            (owner, spender) != (from, caller) ==> ledger.transfer_from_effect(
                caller,
                from,
                to,
                value,
            ).allowance(owner, spender) == ledger.allowance(owner, spender),
        next > ledger.allowance(from, caller) - value ==> ledger.transfer_from_effect(
            caller,
            from,
            to,
            value,
        ).transfer_from_refusal(caller, from, next) == Some(TokenBalanceError::NotEnoughAllowance),
{
}

/// A caller other than the owner can neither pause nor unpause, whatever
/// the state of the ledger, and cannot mint: each is refused as not
/// authorized, but for a mint on a paused ledger, which is refused as paused
/// like every other mint there.
pub proof fn law_owner_enforced(ledger: Ledger, caller: AccountId)
    requires
        caller != ledger.owner,
    ensures
        ledger.pause_refusal(caller) == Some(TokenBalanceError::NotAuthorized),
        ledger.unpause_refusal(caller) == Some(TokenBalanceError::NotAuthorized),
        !ledger.paused ==> ledger.mint_refusal(caller) == Some(TokenBalanceError::NotAuthorized),
        ledger.mint_refusal(caller) is Some,
{
}

/// One call, whichever it is and whether it succeeds or is refused, keeps a
/// conserved ledger conserved.
pub proof fn law_call_conserves(ledger: Ledger, call: Call)
    requires
        ledger.wf(),
        ledger.conserved(),
    ensures
        ledger.after(call).wf(),
        ledger.after(call).conserved(),
        call.is_movement() ==> ledger.after(call).circulating() == ledger.circulating(),
        !call.is_issuance() ==> ledger.after(call).total_supply == ledger.total_supply,
{
    if ledger.refusal(call) is None {
        match call {
            Call::Transfer { caller, to, value } => {
                law_transfer_conserves(ledger, caller, to, value);
            },
            Call::Approve { caller, spender, value } => {
                law_bookkeeping_conserves(ledger, caller, spender, value);
            },
            Call::TransferFrom { caller, from, to, value } => {
                law_transfer_from_conserves(ledger, caller, from, to, value);
            },
            Call::Burn { caller, value } => {
                law_burn_conserves(ledger, caller, value);
            },
            Call::Mint { caller, to, value } => {
                law_mint_conserves(ledger, caller, to, value);
            },
            Call::Pause { caller } => {
                law_bookkeeping_conserves(ledger, caller, caller, 0);
            },
            Call::Unpause { caller } => {
                law_bookkeeping_conserves(ledger, caller, caller, 0);
            },
        }
    }
}

/// Conservation is an invariant: whatever calls are made on a conserved
/// ledger, in whatever order and whether they succeed or are refused, the
/// amount in issue still equals the sum of all balances afterwards.
pub proof fn law_conservation(ledger: Ledger, calls: Seq<Call>)
    requires
        ledger.wf(),
        ledger.conserved(),
    ensures
        ledger.after_all(calls).wf(),
        ledger.after_all(calls).conserved(),
    decreases calls.len(),
{
    if calls.len() != 0 {
        law_conservation(ledger, calls.drop_last());
        law_call_conserves(ledger.after_all(calls.drop_last()), calls.last());
    }
}

/// Every ledger that calls can reach from a new one is conserved: the
/// amount in issue equals the sum of all balances.
pub proof fn law_reachable_conserved(deployer: AccountId, calls: Seq<Call>)
    ensures
        Ledger::opened(deployer).after_all(calls).wf(),
        Ledger::opened(deployer).after_all(calls).conserved(),
{
    law_opened_conserved(deployer);
    law_conservation(Ledger::opened(deployer), calls);
}

/// Any sequence of transfers and delegated transfers on a conserved ledger
/// leaves the sum of all balances and the amount in issue as they were.
pub proof fn law_movements_keep_circulation(ledger: Ledger, calls: Seq<Call>)
    requires
        ledger.wf(),
        ledger.conserved(),
        forall|i: int| 0 <= i < calls.len() ==> (#[trigger] calls[i]).is_movement(),
    ensures
        ledger.after_all(calls).wf(),
        ledger.after_all(calls).conserved(),
        ledger.after_all(calls).circulating() == ledger.circulating(),
        ledger.after_all(calls).total_supply == ledger.total_supply,
    decreases calls.len(),
{
    if calls.len() != 0 {
        let earlier = calls.drop_last();
        assert(forall|i: int| 0 <= i < earlier.len() ==> earlier[i] == calls[i]);
        law_movements_keep_circulation(ledger, earlier);
        assert(calls.last().is_movement());
        law_call_conserves(ledger.after_all(earlier), calls.last());
    }
}

/// The amount in issue changes only by minting and burning: any sequence of
/// other calls leaves it as it was.
pub proof fn law_supply_moves_only_by_issuance(ledger: Ledger, calls: Seq<Call>)
    requires
        forall|i: int| 0 <= i < calls.len() ==> !(#[trigger] calls[i]).is_issuance(),
    ensures
        ledger.after_all(calls).total_supply == ledger.total_supply,
    decreases calls.len(),
{
    if calls.len() != 0 {
        let earlier = calls.drop_last();
        assert(forall|i: int| 0 <= i < earlier.len() ==> earlier[i] == calls[i]);
        law_supply_moves_only_by_issuance(ledger, earlier);
        assert(!calls.last().is_issuance());
    }
}

/// While the ledger is paused, no call but an unpause by the owner changes
/// anything: every other call is refused and the ledger stays as it was.
pub proof fn law_paused_changes_nothing(ledger: Ledger, call: Call)
    requires
        ledger.paused,
        !(call is Unpause),
    ensures
        ledger.refusal(call) is Some,
        ledger.after(call) == ledger,
{
}

/// A call by anyone but the owner that is reserved to the owner changes
/// nothing.
pub proof fn law_owner_only_changes_nothing(ledger: Ledger, call: Call)
    requires
        call.is_owner_only(),
        call.caller() != ledger.owner,
    ensures
        ledger.refusal(call) is Some,
        ledger.after(call) == ledger,
{
}

} // verus!
