//! The commitment to a ledger state: Keccak-256 over the state's canonical
//! ABI encoding.
//!
//! Both the hash and the encoding are computed by outside crates. Their
//! results are named here, and the contracts of this module say which name is
//! applied to what.
use crate::types::{Address, Digest32, LedgerState, LedgerStateView};
use crate::word::UInt256;
use alloy_primitives::U256;
use alloy_sol_types::SolValue;
use tiny_keccak::{Hasher, Keccak};
use vstd::prelude::*;

verus! {

/// The incremental Keccak hasher of `tiny_keccak`.
#[verifier::external_type_specification]
#[verifier::external_body]
pub struct ExKeccak(Keccak);

/// The bytes a hasher has absorbed so far, in the order they were fed.
pub uninterp spec fn absorbed(hasher: Keccak) -> Seq<u8>;

/// The 32-byte Keccak-256 digest of a byte string.
pub uninterp spec fn keccak256(input: Seq<u8>) -> Seq<u8>;

/// The canonical ABI encoding of a ledger state, as one value of the tuple
/// type that lists the state's fields in order. A state that carries a
/// minimum ratio has it between `max_ltv` and `positions_length`; one
/// without has seven fields.
pub uninterp spec fn abi_encoding(state: LedgerStateView) -> Seq<u8>;

/// The digest that commits to a state.
pub open spec fn state_digest(state: LedgerStateView) -> Seq<u8> {
    keccak256(abi_encoding(state))
}

/// Keccak-256 of `values`, fed to the hasher one byte at a time.
pub fn hash(values: Vec<u8>) -> (digest: [u8; 32])
    ensures
        digest@ == keccak256(values@),
{
    let mut hasher = keccak_v256();
    let mut i: usize = 0;
    while i < values.len()
        invariant
            i <= values.len(),
            absorbed(hasher) == values@.take(i as int),
        decreases values.len() - i,
    {
        let byte = [values[i]];
        keccak_update(&mut hasher, &byte);
        assert(values@.take(i as int) + byte@ =~= values@.take(i + 1));
        i += 1;
    }
    assert(values@.take(i as int) =~= values@);
    keccak_finalize(hasher)
}

/// The canonical encoding of a state, in the shape its schema tag selects.
pub fn encode_state(state: &LedgerState) -> (encoded: Vec<u8>)
    ensures
        encoded@ == abi_encoding(state@),
{
    match &state.min_collateralization_ratio {
        Some(ratio) => abi_encode_with_ratio(state, ratio),
        None => abi_encode_without_ratio(state),
    }
}

/// The digest that commits to `state`.
pub fn hash_state(state: &LedgerState) -> (digest: Digest32)
    ensures
        digest@ == state_digest(state@),
{
    Digest32 { bytes: hash(encode_state(state)) }
}

/// Equal states have equal digests: the digest depends on nothing but the
/// state's value.
pub proof fn lemma_digest_is_deterministic(a: LedgerState, b: LedgerState)
    requires
        a@ == b@,
    ensures
        state_digest(a@) == state_digest(b@),
{
}

/// `Keccak::v256` of `tiny_keccak`: a fresh hasher, which has absorbed nothing.
#[verifier::external_body]
fn keccak_v256() -> (hasher: Keccak)
    ensures
        absorbed(hasher) == Seq::<u8>::empty(),
{
    Keccak::v256()
}

/// `Hasher::update` on a `Keccak`: the hasher absorbs `input` after what it
/// has absorbed before. Feeding a string in pieces is feeding it whole.
#[verifier::external_body]
fn keccak_update(hasher: &mut Keccak, input: &[u8])
    ensures
        absorbed(*final(hasher)) == absorbed(*old(hasher)) + input@,
{
    hasher.update(input)
}

/// `Hasher::finalize` on a `Keccak` made by `v256`, into 32 bytes: the
/// Keccak-256 digest of everything the hasher absorbed.
#[verifier::external_body]
fn keccak_finalize(hasher: Keccak) -> (digest: [u8; 32])
    ensures
        digest@ == keccak256(absorbed(hasher)),
{
    let mut digest = [0u8; 32];
    hasher.finalize(&mut digest);
    digest
}

/// `SolValue::abi_encode` of `alloy_sol_types` on the eight-field tuple of a
/// state that carries a minimum ratio: `(address, address, uint256, uint256,
/// uint256, uint256, uint256, (address, uint256, uint256)[])`. Addresses
/// enter through `Address::new` and words through `U256::from_be_bytes`. The
/// result depends on the state's value alone.
#[verifier::external_body]
fn abi_encode_with_ratio(state: &LedgerState, ratio: &UInt256) -> (encoded: Vec<u8>)
    requires
        state.min_collateralization_ratio == Some(*ratio),
    ensures
        encoded@ == abi_encoding(state@),
{
    let a = |x: &Address| alloy_primitives::Address::new(x.bytes);
    let w = |x: &UInt256| U256::from_be_bytes(x.bytes);
    let positions: Vec<_> =
        state.positions.iter().map(|p| (a(&p.user), w(&p.collateral), w(&p.borrowed))).collect();
    (
        a(&state.collateral_asset),
        a(&state.borrow_asset),
        w(&state.collateral_asset_price),
        w(&state.borrow_asset_price),
        w(&state.max_ltv),
        w(ratio),
        w(&state.positions_length),
        positions,
    ).abi_encode()
}

/// `SolValue::abi_encode` of `alloy_sol_types` on the seven-field tuple of a
/// state that carries no minimum ratio: `(address, address, uint256, uint256,
/// uint256, uint256, (address, uint256, uint256)[])`. Addresses enter through
/// `Address::new` and words through `U256::from_be_bytes`. The result depends
/// on the state's value alone.
#[verifier::external_body]
fn abi_encode_without_ratio(state: &LedgerState) -> (encoded: Vec<u8>)
    requires
        state.min_collateralization_ratio.is_none(),
    ensures
        encoded@ == abi_encoding(state@),
{
    let a = |x: &Address| alloy_primitives::Address::new(x.bytes);
    let w = |x: &UInt256| U256::from_be_bytes(x.bytes);
    let positions: Vec<_> =
        state.positions.iter().map(|p| (a(&p.user), w(&p.collateral), w(&p.borrowed))).collect();
    (
        a(&state.collateral_asset),
        a(&state.borrow_asset),
        w(&state.collateral_asset_price),
        w(&state.borrow_asset_price),
        w(&state.max_ltv),
        w(&state.positions_length),
        positions,
    ).abi_encode()
}

} // verus!
