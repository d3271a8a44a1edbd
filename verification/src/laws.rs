//! What holds of every transition, proved from the definitions that the
//! functions' contracts use.
use crate::digest::state_digest;
use crate::engine::outcome;
use crate::ledger::{
    action_of_code, is_slot_of, lemma_slot_exists, lemma_slot_is_unique, slot_of, step,
    transfer_of, users_are_unique, with_slot,
};
use crate::ratio::lemma_zero_debt_passes;
use crate::types::{
    Action, ActionRequest, AssetTransferView, LedgerState, LedgerStateView, PositionView,
    TransitionError, TransitionRequest, TransitionResponseView,
};
use crate::word::{lemma_word_range, max_value};
use vstd::prelude::*;

verus! {

/// A request whose accumulator is not the digest of its state is refused with
/// `Integrity`, whatever the action: nothing is applied to a state that was
/// not verified.
pub proof fn lemma_integrity_gate(request: TransitionRequest)
    requires
        request@.state_accumulator != state_digest(request@.state),
    ensures
        outcome(request@) == Err::<TransitionResponseView, TransitionError>(
            TransitionError::Integrity,
        ),
{
}

/// A request is answered exactly when its accumulator verifies and the action
/// can be applied; the response then names both commitments, one transfer,
/// and the action and signature unchanged.
pub proof fn lemma_response_shape(request: TransitionRequest)
    requires
        outcome(request@) is Ok,
    ensures
        request@.state_accumulator == state_digest(request@.state),
        step(request@.state, request@.action_data) is Ok,
        outcome(request@)->Ok_0.prev_state_accumulator == request@.state_accumulator,
        outcome(request@)->Ok_0.state_accumulator == state_digest(
            step(request@.state, request@.action_data)->Ok_0.0,
        ),
        outcome(request@)->Ok_0.asset_transfers == seq![
            step(request@.state, request@.action_data)->Ok_0.1,
        ],
        outcome(request@)->Ok_0.action_data == request@.action_data,
        outcome(request@)->Ok_0.signature == request@.signature,
{
}

/// An action changes one balance of the acting user's position by exactly
/// the amount, and nothing else: a deposit adds to the collateral, a
/// withdrawal takes from it, a borrowing adds to the debt, a repayment takes
/// from it. Every other position, and every other field of the state, stays
/// as it was. A user without a position starts from zero balances in a new
/// last entry.
pub proof fn lemma_balance_conservation(state: LedgerState, request: ActionRequest)
    requires
        step(state@, request@) is Ok,
    ensures
        ({
            let slot = slot_of(state@.positions, request@.user);
            let before = with_slot(state@.positions, request@.user);
            let next = step(state@, request@)->Ok_0.0;
            let amount = request@.amount;
            &&& action_of_code(request@.action) is Some
            &&& 0 <= slot < before.len()
            &&& next.positions.len() == before.len()
            &&& forall|i: int|
                0 <= i < before.len() && i != slot ==> #[trigger] next.positions[i] == before[i]
            &&& next.positions[slot].user == request@.user
            &&& match action_of_code(request@.action)->Some_0 {
                Action::Deposit => {
                    &&& next.positions[slot].collateral == before[slot].collateral + amount
                    &&& next.positions[slot].borrowed == before[slot].borrowed
                },
                Action::Withdraw => {
                    &&& next.positions[slot].collateral == before[slot].collateral - amount
                    &&& next.positions[slot].borrowed == before[slot].borrowed
                },
                Action::Borrow => {
                    &&& next.positions[slot].collateral == before[slot].collateral
                    &&& next.positions[slot].borrowed == before[slot].borrowed + amount
                },
                Action::Repay => {
                    &&& next.positions[slot].collateral == before[slot].collateral
                    &&& next.positions[slot].borrowed == before[slot].borrowed - amount
                },
            }
            &&& next == LedgerStateView { positions: next.positions, ..state@ }
        }),
{
    lemma_slot_exists(state@.positions, request@.user);
}

/// The transfer that a successful action records: the asset and direction
/// that the action's kind fixes, between the acting user and the vault, over
/// the requested amount.
pub proof fn lemma_transfer_recorded(state: LedgerState, request: ActionRequest)
    requires
        step(state@, request@) is Ok,
    ensures
        action_of_code(request@.action) is Some,
        step(state@, request@)->Ok_0.1 == transfer_of(
            state@.collateral_asset,
            state@.borrow_asset,
            action_of_code(request@.action)->Some_0,
            request@.user,
            request@.amount,
        ),
        step(state@, request@)->Ok_0.1.amount == request@.amount,
{
}

/// A first deposit creates the user's position: the list grows by one entry
/// that holds the deposit as collateral and no debt. It is refused only where
/// the collateral's value cannot be formed in 256 bits.
pub proof fn lemma_first_deposit_creates_position(state: LedgerState, request: ActionRequest)
    requires
        action_of_code(request@.action) == Some(Action::Deposit),
        forall|i: int|
            0 <= i < state@.positions.len() ==> (#[trigger] state@.positions[i]).user
                != request@.user,
        state@.min_collateralization_ratio is Some ==> request@.amount
            * state@.collateral_asset_price <= max_value(),
    ensures
        step(state@, request@) is Ok,
        step(state@, request@)->Ok_0.0.positions == state@.positions.push(
            PositionView { user: request@.user, collateral: request@.amount, borrowed: 0 },
        ),
{
    let positions = state@.positions;
    assert(is_slot_of(positions, request@.user, positions.len() as int));
    lemma_slot_is_unique(positions, request@.user, positions.len() as int);
    lemma_word_range(request.amount);
    if state@.min_collateralization_ratio is Some {
        lemma_zero_debt_passes(
            request@.amount,
            state@.min_collateralization_ratio->Some_0,
            state@.collateral_asset_price,
        );
    }
    let grown = positions.push(PositionView { user: request@.user, collateral: 0, borrowed: 0 });
    assert(grown.update(
        positions.len() as int,
        PositionView { user: request@.user, collateral: request@.amount, borrowed: 0 },
    ) =~= positions.push(
        PositionView { user: request@.user, collateral: request@.amount, borrowed: 0 },
    ));
}

/// Taking out more than there is is refused: a withdrawal over the user's
/// collateral, or a repayment over the user's debt, fails with `Arithmetic`,
/// and a request for it gets no response.
pub proof fn lemma_underflow_is_refused(request: TransitionRequest)
    requires
        ({
            let positions = request@.state.positions;
            let user = request@.action_data.user;
            let held = with_slot(positions, user)[slot_of(positions, user)];
            ||| action_of_code(request@.action_data.action) == Some(Action::Withdraw)
                && request@.action_data.amount > held.collateral
            ||| action_of_code(request@.action_data.action) == Some(Action::Repay)
                && request@.action_data.amount > held.borrowed
        }),
    ensures
        step(request@.state, request@.action_data) == Err::<
            (LedgerStateView, AssetTransferView),
            TransitionError,
        >(TransitionError::Arithmetic),
        outcome(request@) is Err,
        request@.state_accumulator == state_digest(request@.state) ==> outcome(request@) == Err::<
            TransitionResponseView,
            TransitionError,
        >(TransitionError::Arithmetic),
{
}

/// The accumulator that a transition emits commits to the state it produced:
/// a follow-up request that pairs the two is never refused for integrity.
pub proof fn lemma_emitted_accumulator_reverifies(
    request: TransitionRequest,
    follow_up: TransitionRequest,
)
    requires
        outcome(request@) is Ok,
        follow_up@.state == step(request@.state, request@.action_data)->Ok_0.0,
        follow_up@.state_accumulator == outcome(request@)->Ok_0.state_accumulator,
    ensures
        follow_up@.state_accumulator == state_digest(follow_up@.state),
        outcome(follow_up@) != Err::<TransitionResponseView, TransitionError>(
            TransitionError::Integrity,
        ),
{
}

/// A ledger in which no user has two positions stays so.
pub proof fn lemma_users_stay_unique(state: LedgerState, request: ActionRequest)
    requires
        users_are_unique(state@.positions),
        step(state@, request@) is Ok,
    ensures
        users_are_unique(step(state@, request@)->Ok_0.0.positions),
{
    let positions = state@.positions;
    let user = request@.user;
    let slot = slot_of(positions, user);
    let before = with_slot(positions, user);
    let next = step(state@, request@)->Ok_0.0.positions;
    lemma_slot_exists(positions, user);
    assert forall|i: int| 0 <= i < next.len() implies (#[trigger] next[i]).user
        == before[i].user by {}
    assert forall|i: int, j: int| 0 <= i < j < next.len() implies (#[trigger] next[i]).user != (
    #[trigger] next[j]).user by {
        assert(next[i].user == before[i].user);
        assert(next[j].user == before[j].user);
        if j < positions.len() {
            assert(positions[i].user != positions[j].user);
        } else {
            assert(positions[i].user != user);
        }
    }
}

} // verus!
