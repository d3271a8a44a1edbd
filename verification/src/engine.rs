//! The whole transition: verify the prior commitment, apply the action,
//! commit to the next state and assemble the response.
use crate::digest::{hash_state, state_digest};
use crate::ledger::{is_slot_of, lemma_slot_exists, slot_of, step, transition};
use crate::types::{
    transfers_view, ActionRequest, AssetTransfer, Digest32, LedgerState, TransitionError,
    TransitionRequest, TransitionRequestView, TransitionResponse, TransitionResponseView,
};
use crate::word::bytes_equal;
use vstd::prelude::*;

verus! {

/// The outcome of a request: the response, or the reason for refusing.
///
/// A request whose accumulator is not the digest of its state is refused with
/// `Integrity` before anything else is looked at. Otherwise the action is
/// applied as `step` says, and the response carries the accumulator that was
/// supplied, the digest of the next state, the one transfer, and the action
/// and signature as they came.
pub open spec fn outcome(request: TransitionRequestView) -> Result<
    TransitionResponseView,
    TransitionError,
> {
    if request.state_accumulator != state_digest(request.state) {
        Err(TransitionError::Integrity)
    } else {
        match step(request.state, request.action_data) {
            Err(error) => Err(error),
            Ok((next, transfer)) => Ok(
                TransitionResponseView {
                    prev_state_accumulator: request.state_accumulator,
                    state_accumulator: state_digest(next),
                    asset_transfers: seq![transfer],
                    action_data: request.action_data,
                    signature: request.signature,
                },
            ),
        }
    }
}

/// Compares a supplied accumulator with the digest of the state it is
/// claimed for: `Integrity` unless the two are the same 32 bytes.
pub fn check_accumulator(accumulator: &Digest32, digest: &Digest32) -> (verdict: Result<
    (),
    TransitionError,
>)
    ensures
        accumulator@ == digest@ ==> verdict == Ok::<(), TransitionError>(()),
        accumulator@ != digest@ ==> verdict == Err::<(), TransitionError>(
            TransitionError::Integrity,
        ),
{
    if bytes_equal(&accumulator.bytes, &digest.bytes) {
        Ok(())
    } else {
        Err(TransitionError::Integrity)
    }
}

/// Checks that `accumulator` commits to `state`.
pub fn verify_accumulator(accumulator: &Digest32, state: &LedgerState) -> (verdict: Result<
    (),
    TransitionError,
>)
    ensures
        accumulator@ == state_digest(state@) ==> verdict == Ok::<(), TransitionError>(()),
        accumulator@ != state_digest(state@) ==> verdict == Err::<(), TransitionError>(
            TransitionError::Integrity,
        ),
{
    let digest = hash_state(state);
    check_accumulator(accumulator, &digest)
}

/// Packages the parts of a response. Nothing is validated here and the
/// signature is carried through as it is.
pub fn assemble_response(
    prev_state_accumulator: Digest32,
    state_accumulator: Digest32,
    asset_transfers: Vec<AssetTransfer>,
    action_data: ActionRequest,
    signature: Vec<u8>,
) -> (response: TransitionResponse)
    ensures
        response.prev_state_accumulator == prev_state_accumulator,
        response.state_accumulator == state_accumulator,
        response.asset_transfers == asset_transfers,
        response.action_data == action_data,
        response.signature == signature,
{
    TransitionResponse {
        prev_state_accumulator,
        state_accumulator,
        asset_transfers,
        action_data,
        signature,
    }
}

/// Runs one transition on a decoded request: verifies the accumulator,
/// applies the action, commits to the next state and assembles the response.
///
/// The result is `outcome` of the request. The first clause recalls what the
/// slot that `outcome` speaks of is.
pub fn process(request: TransitionRequest) -> (result: Result<TransitionResponse, TransitionError>)
    ensures
        is_slot_of(
            request@.state.positions,
            request@.action_data.user,
            slot_of(request@.state.positions, request@.action_data.user),
        ),
        match result {
            Ok(response) => outcome(request@) == Ok::<TransitionResponseView, TransitionError>(
                response@,
            ),
            Err(error) => outcome(request@) == Err::<TransitionResponseView, TransitionError>(
                error,
            ),
        },
{
    proof {
        lemma_slot_exists(request@.state.positions, request@.action_data.user);
    }
    let TransitionRequest { action_data, state_accumulator, state, signature } = request;
    match verify_accumulator(&state_accumulator, &state) {
        Ok(_) => {},
        Err(error) => { return Err(error); },
    }
    let (next, transfer) = match transition(state, &action_data) {
        Ok(applied) => applied,
        Err(error) => { return Err(error); },
    };
    let next_accumulator = hash_state(&next);
    let mut asset_transfers: Vec<AssetTransfer> = Vec::new();
    asset_transfers.push(transfer);
    let response = assemble_response(
        state_accumulator,
        next_accumulator,
        asset_transfers,
        action_data,
        signature,
    );
    assert(transfers_view(response.asset_transfers@) =~= seq![transfer@]);
    Ok(response)
}

} // verus!
