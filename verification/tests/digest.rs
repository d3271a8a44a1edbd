use alloy_sol_types::SolValue;
use state_updater::digest::{encode_state, hash, hash_state};
use state_updater::types::{Address, Digest32, LedgerState, Position};
use state_updater::word::UInt256;
use tiny_keccak::{Hasher, Keccak};

const WAD: u128 = 1_000_000_000_000_000_000;

fn word(x: u128) -> UInt256 {
    let mut bytes = [0u8; 32];
    bytes[16..].copy_from_slice(&x.to_be_bytes());
    UInt256 { bytes }
}

fn address(byte: u8) -> Address {
    Address { bytes: [byte; 20] }
}

fn unhex(lines: &[&str]) -> Vec<u8> {
    let mut out = Vec::new();
    for line in lines {
        let digits: Vec<u8> = line.bytes().collect();
        for pair in digits.chunks(2) {
            let text = format!("{}{}", pair[0] as char, pair[1] as char);
            out.push(u8::from_str_radix(&text, 16).unwrap());
        }
    }
    out
}

fn sample_state(ratio: Option<UInt256>) -> LedgerState {
    LedgerState {
        collateral_asset: address(0xc0),
        borrow_asset: address(0xb0),
        collateral_asset_price: word(WAD),
        borrow_asset_price: word(2 * WAD),
        max_ltv: word(80),
        min_collateralization_ratio: ratio,
        positions_length: word(2),
        positions: vec![
            Position { user: address(0x11), collateral: word(100), borrowed: word(50) },
            Position { user: address(0x22), collateral: word(7), borrowed: word(0) },
        ],
    }
}

fn keccak_in_one_piece(data: &[u8]) -> [u8; 32] {
    let mut hasher = Keccak::v256();
    hasher.update(data);
    let mut out = [0u8; 32];
    hasher.finalize(&mut out);
    out
}

#[test]
fn hash_of_empty_input_is_the_keccak_256_constant() {
    let expected = unhex(&["c5d2460186f7233c927e7db2dcc703c0e500b653ca82273b7bfad8045d85a470"]);
    assert_eq!(hash(Vec::new()).to_vec(), expected);
}

#[test]
fn hash_of_abc_is_the_known_vector() {
    let expected = unhex(&["4e03657aea45a94fc7d47ba826c8d667c0d1e6e33a64a036ec44f58fa12d6c45"]);
    assert_eq!(hash(b"abc".to_vec()).to_vec(), expected);
}

#[test]
fn hash_fed_by_bytes_equals_hash_fed_at_once() {
    // longer than one 136-byte block, so the sponge permutes while absorbing
    let data: Vec<u8> = (0..1000u32).map(|i| (i * 7 + 3) as u8).collect();
    assert_eq!(hash(data.clone()), keccak_in_one_piece(&data));
    assert_ne!(hash(data.clone()), hash(data[..999].to_vec()));
}

#[test]
fn hash_differs_from_its_input() {
    let input = [0x5au8; 32];
    assert_ne!(hash(input.to_vec()), input);
}

#[test]
fn state_with_ratio_encodes_as_eight_field_tuple() {
    let expected = unhex(&[
        "0000000000000000000000000000000000000000000000000000000000000020",
        "000000000000000000000000c0c0c0c0c0c0c0c0c0c0c0c0c0c0c0c0c0c0c0c0",
        "000000000000000000000000b0b0b0b0b0b0b0b0b0b0b0b0b0b0b0b0b0b0b0b0",
        "0000000000000000000000000000000000000000000000000de0b6b3a7640000",
        "0000000000000000000000000000000000000000000000001bc16d674ec80000",
        "0000000000000000000000000000000000000000000000000000000000000050",
        "00000000000000000000000000000000000000000000000821ab0d4414980000",
        "0000000000000000000000000000000000000000000000000000000000000002",
        "0000000000000000000000000000000000000000000000000000000000000100",
        "0000000000000000000000000000000000000000000000000000000000000002",
        "0000000000000000000000001111111111111111111111111111111111111111",
        "0000000000000000000000000000000000000000000000000000000000000064",
        "0000000000000000000000000000000000000000000000000000000000000032",
        "0000000000000000000000002222222222222222222222222222222222222222",
        "0000000000000000000000000000000000000000000000000000000000000007",
        "0000000000000000000000000000000000000000000000000000000000000000",
    ]);
    assert_eq!(encode_state(&sample_state(Some(word(150 * WAD)))), expected);
}

#[test]
fn state_without_ratio_encodes_as_seven_field_tuple() {
    let expected = unhex(&[
        "0000000000000000000000000000000000000000000000000000000000000020",
        "000000000000000000000000c0c0c0c0c0c0c0c0c0c0c0c0c0c0c0c0c0c0c0c0",
        "000000000000000000000000b0b0b0b0b0b0b0b0b0b0b0b0b0b0b0b0b0b0b0b0",
        "0000000000000000000000000000000000000000000000000de0b6b3a7640000",
        "0000000000000000000000000000000000000000000000001bc16d674ec80000",
        "0000000000000000000000000000000000000000000000000000000000000050",
        "0000000000000000000000000000000000000000000000000000000000000002",
        "00000000000000000000000000000000000000000000000000000000000000e0",
        "0000000000000000000000000000000000000000000000000000000000000002",
        "0000000000000000000000001111111111111111111111111111111111111111",
        "0000000000000000000000000000000000000000000000000000000000000064",
        "0000000000000000000000000000000000000000000000000000000000000032",
        "0000000000000000000000002222222222222222222222222222222222222222",
        "0000000000000000000000000000000000000000000000000000000000000007",
        "0000000000000000000000000000000000000000000000000000000000000000",
    ]);
    assert_eq!(encode_state(&sample_state(None)), expected);
}

#[test]
fn empty_ledger_encodes_with_an_empty_array() {
    let state = LedgerState {
        collateral_asset: address(0),
        borrow_asset: address(0),
        collateral_asset_price: word(0),
        borrow_asset_price: word(0),
        max_ltv: word(0),
        min_collateralization_ratio: Some(word(0)),
        positions_length: word(0),
        positions: Vec::new(),
    };
    let mut expected = vec![0u8; 10 * 32];
    expected[31] = 0x20;
    expected[8 * 32 + 30] = 0x01;
    assert_eq!(encode_state(&state), expected);
}

#[test]
fn encoding_agrees_with_the_codec_on_native_values() {
    let state = sample_state(Some(word(150 * WAD)));
    let native = (
        alloy_primitives::Address::new([0xc0; 20]),
        alloy_primitives::Address::new([0xb0; 20]),
        alloy_primitives::U256::from(WAD),
        alloy_primitives::U256::from(2 * WAD),
        alloy_primitives::U256::from(80u64),
        alloy_primitives::U256::from(150 * WAD),
        alloy_primitives::U256::from(2u64),
        vec![
            (
                alloy_primitives::Address::new([0x11; 20]),
                alloy_primitives::U256::from(100u64),
                alloy_primitives::U256::from(50u64),
            ),
            (
                alloy_primitives::Address::new([0x22; 20]),
                alloy_primitives::U256::from(7u64),
                alloy_primitives::U256::from(0u64),
            ),
        ],
    );
    assert_eq!(encode_state(&state), native.abi_encode());
}

#[test]
fn digest_is_keccak_of_the_encoding() {
    let state = sample_state(Some(word(150 * WAD)));
    let digest = hash_state(&state);
    assert_eq!(digest.bytes, keccak_in_one_piece(&encode_state(&state)));
    assert_eq!(digest, Digest32 { bytes: hash(encode_state(&state)) });
}

#[test]
fn digest_of_sample_states() {
    let with_ratio = unhex(&["dd6247555237b766213a73fcd2aaa9afce8ba663f96f93c5cc73fb7aab7aa6ab"]);
    assert_eq!(hash_state(&sample_state(Some(word(150 * WAD)))).bytes.to_vec(), with_ratio);
    let without = unhex(&["0648e811c1ba0e10b0ff0dfd4e67a1c7fffee919a355f510af15b48d71d08155"]);
    assert_eq!(hash_state(&sample_state(None)).bytes.to_vec(), without);
}

#[test]
fn hash_of_a_thousand_bytes() {
    let data: Vec<u8> = (0..1000u32).map(|i| (i * 7 + 3) as u8).collect();
    let expected = unhex(&["80cdc8dd52cbb3dbaea8f383209893fa2bb52efbd5aedbb4b26dcfe307fcdc9b"]);
    assert_eq!(hash(data).to_vec(), expected);
}

#[test]
fn digest_recomputed_is_identical() {
    let state = sample_state(Some(word(150 * WAD)));
    let copy = state.clone();
    assert_eq!(hash_state(&state), hash_state(&state));
    assert_eq!(hash_state(&state), hash_state(&copy));
}

#[test]
fn digest_changes_with_every_field() {
    let base = sample_state(Some(word(150 * WAD)));
    let digest = hash_state(&base);

    let mut changed = base.clone();
    changed.collateral_asset = address(0xc1);
    assert_ne!(hash_state(&changed), digest);

    let mut changed = base.clone();
    changed.borrow_asset = address(0xb1);
    assert_ne!(hash_state(&changed), digest);

    let mut changed = base.clone();
    changed.collateral_asset_price = word(WAD + 1);
    assert_ne!(hash_state(&changed), digest);

    let mut changed = base.clone();
    changed.borrow_asset_price = word(2 * WAD + 1);
    assert_ne!(hash_state(&changed), digest);

    let mut changed = base.clone();
    changed.max_ltv = word(81);
    assert_ne!(hash_state(&changed), digest);

    let mut changed = base.clone();
    changed.min_collateralization_ratio = Some(word(150 * WAD + 1));
    assert_ne!(hash_state(&changed), digest);

    let mut changed = base.clone();
    changed.min_collateralization_ratio = None;
    assert_ne!(hash_state(&changed), digest);

    let mut changed = base.clone();
    changed.positions_length = word(3);
    assert_ne!(hash_state(&changed), digest);

    let mut changed = base.clone();
    changed.positions[0].user = address(0x12);
    assert_ne!(hash_state(&changed), digest);

    let mut changed = base.clone();
    changed.positions[1].collateral = word(8);
    assert_ne!(hash_state(&changed), digest);

    let mut changed = base.clone();
    changed.positions[1].borrowed = word(1);
    assert_ne!(hash_state(&changed), digest);

    let mut changed = base.clone();
    changed.positions.swap(0, 1);
    assert_ne!(hash_state(&changed), digest);

    let mut changed = base.clone();
    changed.positions.pop();
    assert_ne!(hash_state(&changed), digest);
}
