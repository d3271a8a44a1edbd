//! The ledger's data model: the values a transition reads and produces, and
//! the mathematical view of each.
use crate::word::UInt256;
use vstd::prelude::*;

verus! {

/// A 20-byte account or asset address.
#[derive(Clone, Copy, Debug, PartialEq, Eq)]
pub struct Address {
    pub bytes: [u8; 20],
}

impl View for Address {
    type V = Seq<u8>;

    open spec fn view(&self) -> Seq<u8> {
        self.bytes@
    }
}

/// The bytes of the vault address: twenty zero bytes.
pub open spec fn vault_address() -> Seq<u8> {
    Seq::new(20, |i: int| 0u8)
}

impl Address {
    /// The ledger's own custody side of a transfer.
    pub fn vault() -> (vault: Address)
        ensures
            vault@ == vault_address(),
    {
        let vault = Address { bytes: [0u8; 20] };
        assert(vault@ =~= vault_address());
        vault
    }
}

/// A 256-bit content digest.
#[derive(Clone, Copy, Debug, PartialEq, Eq)]
pub struct Digest32 {
    pub bytes: [u8; 32],
}

impl View for Digest32 {
    type V = Seq<u8>;

    open spec fn view(&self) -> Seq<u8> {
        self.bytes@
    }
}

/// One user's balances.
#[derive(Clone, Copy, Debug, PartialEq, Eq)]
pub struct Position {
    pub user: Address,
    pub collateral: UInt256,
    pub borrowed: UInt256,
}

/// A position as numbers: the user's address bytes and the two balances.
pub struct PositionView {
    pub user: Seq<u8>,
    pub collateral: nat,
    pub borrowed: nat,
}

impl View for Position {
    type V = PositionView;

    open spec fn view(&self) -> PositionView {
        PositionView {
            user: self.user@,
            collateral: self.collateral@,
            borrowed: self.borrowed@,
        }
    }
}

/// The whole ledger.
///
/// `min_collateralization_ratio` is the schema tag: a state that carries a
/// ratio is encoded with it and has the collateralization invariant enforced
/// on every transition; a state without one is encoded without it and is not
/// checked. `positions_length` is carried as given and never compared with
/// the length of `positions`.
#[derive(Clone, Debug, PartialEq, Eq)]
pub struct LedgerState {
    pub collateral_asset: Address,
    pub borrow_asset: Address,
    pub collateral_asset_price: UInt256,
    pub borrow_asset_price: UInt256,
    pub max_ltv: UInt256,
    pub min_collateralization_ratio: Option<UInt256>,
    pub positions_length: UInt256,
    pub positions: Vec<Position>,
}

/// A ledger state as numbers and sequences.
pub struct LedgerStateView {
    pub collateral_asset: Seq<u8>,
    pub borrow_asset: Seq<u8>,
    pub collateral_asset_price: nat,
    pub borrow_asset_price: nat,
    pub max_ltv: nat,
    pub min_collateralization_ratio: Option<nat>,
    pub positions_length: nat,
    pub positions: Seq<PositionView>,
}

/// The views of a list of positions, in order.
pub open spec fn positions_view(positions: Seq<Position>) -> Seq<PositionView> {
    Seq::new(positions.len(), |i: int| positions[i]@)
}

impl View for LedgerState {
    type V = LedgerStateView;

    open spec fn view(&self) -> LedgerStateView {
        LedgerStateView {
            collateral_asset: self.collateral_asset@,
            borrow_asset: self.borrow_asset@,
            collateral_asset_price: self.collateral_asset_price@,
            borrow_asset_price: self.borrow_asset_price@,
            max_ltv: self.max_ltv@,
            min_collateralization_ratio: match self.min_collateralization_ratio {
                Some(ratio) => Some(ratio@),
                None => None,
            },
            positions_length: self.positions_length@,
            positions: positions_view(self.positions@),
        }
    }
}

/// The four balance mutations.
#[derive(Clone, Copy, Debug, PartialEq, Eq, Structural)]
pub enum Action {
    Deposit,
    Withdraw,
    Borrow,
    Repay,
}

/// One requested action: its code, the acting user and the amount.
#[derive(Clone, Copy, Debug, PartialEq, Eq)]
pub struct ActionRequest {
    pub action: UInt256,
    pub user: Address,
    pub amount: UInt256,
}

/// An action request as numbers.
pub struct ActionRequestView {
    pub action: nat,
    pub user: Seq<u8>,
    pub amount: nat,
}

impl View for ActionRequest {
    type V = ActionRequestView;

    open spec fn view(&self) -> ActionRequestView {
        ActionRequestView { action: self.action@, user: self.user@, amount: self.amount@ }
    }
}

/// The input of a transition: the action, the claimed commitment to the prior
/// state, that state, and a signature that is carried through unread.
#[derive(Clone, Debug, PartialEq, Eq)]
pub struct TransitionRequest {
    pub action_data: ActionRequest,
    pub state_accumulator: Digest32,
    pub state: LedgerState,
    pub signature: Vec<u8>,
}

/// A transition request as numbers and sequences.
pub struct TransitionRequestView {
    pub action_data: ActionRequestView,
    pub state_accumulator: Seq<u8>,
    pub state: LedgerStateView,
    pub signature: Seq<u8>,
}

impl View for TransitionRequest {
    type V = TransitionRequestView;

    open spec fn view(&self) -> TransitionRequestView {
        TransitionRequestView {
            action_data: self.action_data@,
            state_accumulator: self.state_accumulator@,
            state: self.state@,
            signature: self.signature@,
        }
    }
}

/// One asset movement that an action implies.
#[derive(Clone, Copy, Debug, PartialEq, Eq)]
pub struct AssetTransfer {
    pub asset: Address,
    pub from: Address,
    pub to: Address,
    pub amount: UInt256,
}

/// A transfer as numbers: the three addresses' bytes and the amount.
pub struct AssetTransferView {
    pub asset: Seq<u8>,
    pub from: Seq<u8>,
    pub to: Seq<u8>,
    pub amount: nat,
}

impl View for AssetTransfer {
    type V = AssetTransferView;

    open spec fn view(&self) -> AssetTransferView {
        AssetTransferView {
            asset: self.asset@,
            from: self.from@,
            to: self.to@,
            amount: self.amount@,
        }
    }
}

/// The views of a list of transfers, in order.
pub open spec fn transfers_view(transfers: Seq<AssetTransfer>) -> Seq<AssetTransferView> {
    Seq::new(transfers.len(), |i: int| transfers[i]@)
}

/// The output of a successful transition.
#[derive(Clone, Debug, PartialEq, Eq)]
pub struct TransitionResponse {
    pub prev_state_accumulator: Digest32,
    pub state_accumulator: Digest32,
    pub asset_transfers: Vec<AssetTransfer>,
    pub action_data: ActionRequest,
    pub signature: Vec<u8>,
}

/// A response as numbers and sequences.
pub struct TransitionResponseView {
    pub prev_state_accumulator: Seq<u8>,
    pub state_accumulator: Seq<u8>,
    pub asset_transfers: Seq<AssetTransferView>,
    pub action_data: ActionRequestView,
    pub signature: Seq<u8>,
}

impl View for TransitionResponse {
    type V = TransitionResponseView;

    open spec fn view(&self) -> TransitionResponseView {
        TransitionResponseView {
            prev_state_accumulator: self.prev_state_accumulator@,
            state_accumulator: self.state_accumulator@,
            asset_transfers: transfers_view(self.asset_transfers@),
            action_data: self.action_data@,
            signature: self.signature@,
        }
    }
}

/// Why a transition was refused. Every refusal is final: the action must be
/// treated as not applied.
#[derive(Clone, Copy, Debug, PartialEq, Eq, Structural)]
pub enum TransitionError {
    /// The supplied commitment is not the digest of the supplied state.
    Integrity,
    /// A checked operation overflowed, underflowed or divided by zero.
    Arithmetic,
    /// The action code is none of the four known ones.
    InvalidAction,
    /// The acting position has debt and its ratio is under the minimum.
    InvariantViolation,
}

} // verus!
