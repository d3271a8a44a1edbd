//! Position lookup and the four balance mutations.
use crate::ratio::{check_collateralization_ratio, ratio_check};
use crate::types::{
    positions_view, vault_address, Action, ActionRequest, ActionRequestView, Address,
    AssetTransfer, AssetTransferView, LedgerState, LedgerStateView, Position, PositionView,
    TransitionError,
};
use crate::word::{bytes_equal, checked_add, checked_sub, from_u64, max_value, UInt256};
use vstd::prelude::*;

verus! {

/// Whether `index` is where `user` is to be found in `positions`: the first
/// entry of that user, or the length of the list if the user has none.
pub open spec fn is_slot_of(positions: Seq<PositionView>, user: Seq<u8>, index: int) -> bool {
    &&& 0 <= index <= positions.len()
    &&& forall|j: int| 0 <= j < index ==> (#[trigger] positions[j]).user != user
    &&& index < positions.len() ==> positions[index].user == user
}

/// The slot of `user` in `positions`.
pub open spec fn slot_of(positions: Seq<PositionView>, user: Seq<u8>) -> int {
    choose|index: int| is_slot_of(positions, user, index)
}

/// `positions` with an entry for `user`: the list itself if the user has one,
/// else the list with a zero-balance entry appended.
pub open spec fn with_slot(positions: Seq<PositionView>, user: Seq<u8>) -> Seq<PositionView> {
    if slot_of(positions, user) < positions.len() {
        positions
    } else {
        positions.push(PositionView { user, collateral: 0, borrowed: 0 })
    }
}

/// No user has two entries.
pub open spec fn users_are_unique(positions: Seq<PositionView>) -> bool {
    forall|i: int, j: int|
        0 <= i < j < positions.len() ==> (#[trigger] positions[i]).user != (
        #[trigger] positions[j]).user
}

/// A user has exactly one slot.
pub proof fn lemma_slot_is_unique(positions: Seq<PositionView>, user: Seq<u8>, index: int)
    requires
        is_slot_of(positions, user, index),
    ensures
        slot_of(positions, user) == index,
{
    let chosen = slot_of(positions, user);
    assert(is_slot_of(positions, user, chosen));
    if chosen < index {
        assert(positions[chosen].user != user);
    } else if index < chosen {
        assert(positions[index].user != user);
    }
}

/// Every user has a slot, and it lies within the list once the user has an
/// entry.
pub proof fn lemma_slot_exists(positions: Seq<PositionView>, user: Seq<u8>)
    ensures
        is_slot_of(positions, user, slot_of(positions, user)),
        0 <= slot_of(positions, user) < with_slot(positions, user).len(),
        with_slot(positions, user)[slot_of(positions, user)].user == user,
        is_slot_of(with_slot(positions, user), user, slot_of(positions, user)),
    decreases positions.len(),
{
    if positions.len() == 0 {
        assert(is_slot_of(positions, user, 0));
    } else {
        let front = positions.drop_last();
        lemma_slot_exists(front, user);
        let k = slot_of(front, user);
        assert forall|j: int| 0 <= j < k implies (#[trigger] positions[j]).user != user by {
            assert(front[j].user != user);
        }
        if k < front.len() {
            assert(front[k] == positions[k]);
            assert(is_slot_of(positions, user, k));
        } else if positions.last().user == user {
            assert(is_slot_of(positions, user, k));
        } else {
            assert(is_slot_of(positions, user, k + 1));
        }
    }
}

/// The action that a code stands for.
pub open spec fn action_of_code(code: nat) -> Option<Action> {
    if code == 0 {
        Some(Action::Deposit)
    } else if code == 1 {
        Some(Action::Withdraw)
    } else if code == 2 {
        Some(Action::Borrow)
    } else if code == 3 {
        Some(Action::Repay)
    } else {
        None
    }
}

/// The position after `action` moves `amount`, or `Arithmetic` where the
/// balance would leave the 256-bit range.
pub open spec fn mutated(position: PositionView, action: Action, amount: nat) -> Result<
    PositionView,
    TransitionError,
> {
    match action {
        Action::Deposit => if position.collateral + amount <= max_value() {
            Ok(PositionView { collateral: position.collateral + amount, ..position })
        } else {
            Err(TransitionError::Arithmetic)
        },
        Action::Withdraw => if amount <= position.collateral {
            Ok(PositionView { collateral: (position.collateral - amount) as nat, ..position })
        } else {
            Err(TransitionError::Arithmetic)
        },
        Action::Borrow => if position.borrowed + amount <= max_value() {
            Ok(PositionView { borrowed: position.borrowed + amount, ..position })
        } else {
            Err(TransitionError::Arithmetic)
        },
        Action::Repay => if amount <= position.borrowed {
            Ok(PositionView { borrowed: (position.borrowed - amount) as nat, ..position })
        } else {
            Err(TransitionError::Arithmetic)
        },
    }
}

/// The asset movement that `action` implies: deposits and repayments go from
/// the user to the vault, withdrawals and borrowings from the vault to the
/// user; deposits and withdrawals move the collateral asset, the others the
/// borrow asset.
pub open spec fn transfer_of(
    collateral_asset: Seq<u8>,
    borrow_asset: Seq<u8>,
    action: Action,
    user: Seq<u8>,
    amount: nat,
) -> AssetTransferView {
    match action {
        Action::Deposit => AssetTransferView {
            asset: collateral_asset,
            from: user,
            to: vault_address(),
            amount,
        },
        Action::Withdraw => AssetTransferView {
            asset: collateral_asset,
            from: vault_address(),
            to: user,
            amount,
        },
        Action::Borrow => AssetTransferView {
            asset: borrow_asset,
            from: vault_address(),
            to: user,
            amount,
        },
        Action::Repay => AssetTransferView {
            asset: borrow_asset,
            from: user,
            to: vault_address(),
            amount,
        },
    }
}

/// The outcome of the invariant check on the position at `slot`: the ratio
/// check where the state carries a minimum ratio, a pass where it carries
/// none.
pub open spec fn invariant_check(state: LedgerStateView, slot: int) -> Result<
    (),
    TransitionError,
> {
    match state.min_collateralization_ratio {
        Some(min_ratio) => ratio_check(
            state.positions[slot].collateral,
            state.positions[slot].borrowed,
            min_ratio,
            state.collateral_asset_price,
        ),
        None => Ok(()),
    }
}

/// The outcome of one action on a state: the next state and the transfer,
/// or the reason for refusing.
///
/// The acting user's position is located or created, the action's mutation
/// is applied to it, and the invariant is checked on the result. An unknown
/// action code is `InvalidAction`.
pub open spec fn step(state: LedgerStateView, request: ActionRequestView) -> Result<
    (LedgerStateView, AssetTransferView),
    TransitionError,
> {
    let slot = slot_of(state.positions, request.user);
    let positions = with_slot(state.positions, request.user);
    match action_of_code(request.action) {
        None => Err(TransitionError::InvalidAction),
        Some(action) => match mutated(positions[slot], action, request.amount) {
            Err(error) => Err(error),
            Ok(position) => {
                let next = LedgerStateView { positions: positions.update(slot, position), ..state };
                match invariant_check(next, slot) {
                    Err(error) => Err(error),
                    Ok(_) => Ok(
                        (
                            next,
                            transfer_of(
                                state.collateral_asset,
                                state.borrow_asset,
                                action,
                                request.user,
                                request.amount,
                            ),
                        ),
                    ),
                }
            },
        },
    }
}

impl Action {
    /// Reads an action code: 0 is a deposit, 1 a withdrawal, 2 a borrowing,
    /// 3 a repayment, and any other value is none of them.
    pub fn from_code(code: &UInt256) -> (action: Option<Action>)
        ensures
            action == action_of_code(code@),
    {
        if code.same_value(&from_u64(0)) {
            Some(Action::Deposit)
        } else if code.same_value(&from_u64(1)) {
            Some(Action::Withdraw)
        } else if code.same_value(&from_u64(2)) {
            Some(Action::Borrow)
        } else if code.same_value(&from_u64(3)) {
            Some(Action::Repay)
        } else {
            None
        }
    }
}

/// Finds the position of `user`, appending a zero-balance one if the user
/// has none, and returns its index.
pub fn find_or_create(positions: &mut Vec<Position>, user: &Address) -> (index: usize)
    ensures
        is_slot_of(positions_view(old(positions)@), user@, index as int),
        index < old(positions).len() ==> final(positions)@ == old(positions)@,
        index == old(positions).len() ==> {
            &&& final(positions).len() == old(positions).len() + 1
            &&& final(positions)@.drop_last() == old(positions)@
            &&& final(positions)@.last()@ == PositionView {
                user: user@,
                collateral: 0,
                borrowed: 0,
            }
        },
        index == slot_of(positions_view(old(positions)@), user@),
        positions_view(final(positions)@) == with_slot(positions_view(old(positions)@), user@),
{
    let ghost before = positions_view(positions@);
    let mut i: usize = 0;
    while i < positions.len()
        invariant
            i <= positions.len(),
            positions == old(positions),
            before == positions_view(positions@),
            forall|j: int| 0 <= j < i ==> (#[trigger] before[j]).user != user@,
        decreases positions.len() - i,
    {
        if bytes_equal(&positions[i].user.bytes, &user.bytes) {
            proof {
                assert(before[i as int].user == user@);
                lemma_slot_is_unique(before, user@, i as int);
            }
            return i;
        }
        i += 1;
    }
    proof {
        lemma_slot_is_unique(before, user@, i as int);
    }
    let zero = from_u64(0);
    positions.push(Position { user: *user, collateral: zero, borrowed: zero });
    assert(positions@.drop_last() =~= old(positions)@);
    assert(positions_view(positions@) =~= with_slot(before, user@));
    i
}

/// Applies `action` to one position: the balance it names grows or shrinks
/// by `amount`, and nothing else changes.
pub fn mutate_position(position: Position, action: Action, amount: &UInt256) -> (outcome: Result<
    Position,
    TransitionError,
>)
    ensures
        match outcome {
            Ok(next) => mutated(position@, action, amount@) == Ok::<PositionView, TransitionError>(
                next@,
            ),
            Err(error) => mutated(position@, action, amount@) == Err::<
                PositionView,
                TransitionError,
            >(error),
        },
{
    match action {
        Action::Deposit => match checked_add(&position.collateral, amount) {
            Some(collateral) => Ok(
                Position { user: position.user, collateral, borrowed: position.borrowed },
            ),
            None => Err(TransitionError::Arithmetic),
        },
        Action::Withdraw => match checked_sub(&position.collateral, amount) {
            Some(collateral) => Ok(
                Position { user: position.user, collateral, borrowed: position.borrowed },
            ),
            None => Err(TransitionError::Arithmetic),
        },
        Action::Borrow => match checked_add(&position.borrowed, amount) {
            Some(borrowed) => Ok(
                Position { user: position.user, collateral: position.collateral, borrowed },
            ),
            None => Err(TransitionError::Arithmetic),
        },
        Action::Repay => match checked_sub(&position.borrowed, amount) {
            Some(borrowed) => Ok(
                Position { user: position.user, collateral: position.collateral, borrowed },
            ),
            None => Err(TransitionError::Arithmetic),
        },
    }
}

/// The asset movement that `action` by `user` implies.
pub fn transfer_for(
    collateral_asset: Address,
    borrow_asset: Address,
    action: Action,
    user: Address,
    amount: UInt256,
) -> (transfer: AssetTransfer)
    ensures
        transfer@ == transfer_of(collateral_asset@, borrow_asset@, action, user@, amount@),
{
    let vault = Address::vault();
    match action {
        Action::Deposit => AssetTransfer { asset: collateral_asset, from: user, to: vault, amount },
        Action::Withdraw => AssetTransfer {
            asset: collateral_asset,
            from: vault,
            to: user,
            amount,
        },
        Action::Borrow => AssetTransfer { asset: borrow_asset, from: vault, to: user, amount },
        Action::Repay => AssetTransfer { asset: borrow_asset, from: user, to: vault, amount },
    }
}

/// Applies one action to a state and checks the invariant on the acting
/// position. Returns the next state with the transfer the action implies, or
/// the reason for refusing.
///
/// The outcome is `step` of the state and the request. The first clause
/// recalls what the slot that `step` speaks of is: where the user's first
/// position lies, or the end of the list.
pub fn transition(state: LedgerState, request: &ActionRequest) -> (outcome: Result<
    (LedgerState, AssetTransfer),
    TransitionError,
>)
    ensures
        is_slot_of(state@.positions, request@.user, slot_of(state@.positions, request@.user)),
        match outcome {
            Ok((next, transfer)) => step(state@, request@) == Ok::<
                (LedgerStateView, AssetTransferView),
                TransitionError,
            >((next@, transfer@)),
            Err(error) => step(state@, request@) == Err::<
                (LedgerStateView, AssetTransferView),
                TransitionError,
            >(error),
        },
{
    let mut next = state;
    let index = find_or_create(&mut next.positions, &request.user);
    let action = match Action::from_code(&request.action) {
        Some(action) => action,
        None => { return Err(TransitionError::InvalidAction); },
    };
    let position = match mutate_position(next.positions[index], action, &request.amount) {
        Ok(position) => position,
        Err(error) => { return Err(error); },
    };
    next.positions.set(index, position);
    proof {
        let located = with_slot(state@.positions, request@.user);
        assert(next@.positions =~= located.update(index as int, position@));
        assert(next@ == LedgerStateView {
            positions: located.update(index as int, position@),
            ..state@
        });
    }
    match next.min_collateralization_ratio {
        Some(min_ratio) => {
            match check_collateralization_ratio(
                position.collateral,
                position.borrowed,
                min_ratio,
                next.collateral_asset_price,
                next.borrow_asset_price,
            ) {
                Ok(_) => {},
                Err(error) => { return Err(error); },
            }
        },
        None => {},
    }
    let transfer = transfer_for(
        next.collateral_asset,
        next.borrow_asset,
        action,
        request.user,
        request.amount,
    );
    Ok((next, transfer))
}

} // verus!
