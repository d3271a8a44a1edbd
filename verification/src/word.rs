//! 256-bit unsigned words, held as 32 big-endian bytes, and the checked
//! arithmetic the ledger performs on them.
//!
//! The bytes are plain data that the verifier can read; the arithmetic itself
//! is done by `alloy_primitives::U256`, behind the trusted functions at the
//! end of this file. Comparison for equality is done here, on the bytes.
use alloy_primitives::U256;
use vstd::arithmetic::power::pow;
use vstd::prelude::*;

verus! {

/// The number that a byte string denotes when read most significant byte first.
pub open spec fn be_value(bytes: Seq<u8>) -> nat
    decreases bytes.len(),
{
    if bytes.len() == 0 {
        0
    } else {
        be_value(bytes.drop_last()) * 256 + bytes.last() as nat
    }
}

/// 2^256, one more than the largest word.
pub open spec fn modulus() -> nat {
    0x1_0000_0000_0000_0000_0000_0000_0000_0000_0000_0000_0000_0000_0000_0000_0000_0000nat
}

/// The largest value a word can hold, 2^256 - 1.
pub open spec fn max_value() -> nat {
    (modulus() - 1) as nat
}

/// The fixed-point scale, 10^18.
pub open spec fn wad_value() -> nat {
    1_000_000_000_000_000_000
}

/// An unsigned 256-bit integer, stored as its 32 big-endian bytes.
#[derive(Clone, Copy, Debug, PartialEq, Eq)]
pub struct UInt256 {
    pub bytes: [u8; 32],
}

impl View for UInt256 {
    type V = nat;

    open spec fn view(&self) -> nat {
        be_value(self.bytes@)
    }
}

/// Byte strings of one length that denote the same number are the same string.
pub proof fn lemma_be_value_injective(a: Seq<u8>, b: Seq<u8>)
    requires
        a.len() == b.len(),
        be_value(a) == be_value(b),
    ensures
        a == b,
    decreases a.len(),
{
    if a.len() > 0 {
        lemma_be_value_injective(a.drop_last(), b.drop_last());
        assert(a =~= a.drop_last().push(a.last()));
        assert(b =~= b.drop_last().push(b.last()));
    } else {
        assert(a =~= b);
    }
}

/// 256 to the power `n`.
pub open spec fn radix_power(n: nat) -> nat
    decreases n,
{
    if n == 0 {
        1
    } else {
        256 * radix_power((n - 1) as nat)
    }
}

/// A byte string denotes a number below 256 to the power of its length.
pub proof fn lemma_be_value_bound(bytes: Seq<u8>)
    ensures
        be_value(bytes) < radix_power(bytes.len()),
    decreases bytes.len(),
{
    if bytes.len() > 0 {
        lemma_be_value_bound(bytes.drop_last());
    }
}

/// Every word's value lies in the 256-bit range.
pub proof fn lemma_word_range(word: UInt256)
    ensures
        word@ <= max_value(),
{
    lemma_be_value_bound(word.bytes@);
    reveal_with_fuel(radix_power, 33);
    assert(radix_power(32) == modulus());
}

/// Two words with the same value are the same word.
pub proof fn lemma_value_determines_word(a: UInt256, b: UInt256)
    requires
        a@ == b@,
    ensures
        a == b,
{
    lemma_be_value_injective(a.bytes@, b.bytes@);
    assert(a.bytes =~= b.bytes);
}

/// Whether two byte arrays of one length hold the same bytes.
pub fn bytes_equal<const N: usize>(a: &[u8; N], b: &[u8; N]) -> (same: bool)
    ensures
        same == (a@ == b@),
{
    let mut i: usize = 0;
    while i < N
        invariant
            i <= N,
            forall|j: int| 0 <= j < i ==> a@[j] == b@[j],
        decreases N - i,
    {
        if a[i] != b[i] {
            return false;
        }
        i += 1;
    }
    assert(a@ =~= b@);
    true
}

impl UInt256 {
    /// Whether two words hold the same value.
    pub fn same_value(&self, other: &UInt256) -> (same: bool)
        ensures
            same == (self@ == other@),
    {
        let same = bytes_equal(&self.bytes, &other.bytes);
        proof {
            if self@ == other@ {
                lemma_be_value_injective(self.bytes@, other.bytes@);
            }
        }
        same
    }
}

/// The fixed-point scale 10^18, computed as ten to the eighteenth power.
pub fn wad() -> (w: UInt256)
    ensures
        w@ == wad_value(),
{
    let ten = from_u64(10);
    let eighteen = from_u64(18);
    let w = wrapping_pow(&ten, &eighteen);
    proof {
        reveal_with_fuel(pow, 19);
        assert(pow(10, 18) == 1_000_000_000_000_000_000int);
    }
    w
}

// The functions from here on are trusted: each calls `alloy_primitives::U256`
// (the `Uint<256, 4>` of `ruint`) and the verifier takes its contract on
// faith. A word enters the call through `U256::from_be_bytes` and leaves it
// through `U256::to_be_bytes`, which read and write the 32 bytes as the
// big-endian number that `be_value` gives.

/// `Uint::from` on a `u64`: the word whose value is `x`. A `u64` always fits
/// in 256 bits, so the conversion cannot fail.
#[verifier::external_body]
pub(crate) fn from_u64(x: u64) -> (w: UInt256)
    ensures
        w@ == x,
{
    UInt256 { bytes: U256::from(x).to_be_bytes() }
}

/// `Uint::pow`: `base` raised to `exp`, wrapping around at 2^256. Zero to the
/// power zero is one.
#[verifier::external_body]
pub(crate) fn wrapping_pow(base: &UInt256, exp: &UInt256) -> (w: UInt256)
    ensures
        w@ == pow(base@ as int, exp@) % (modulus() as int),
{
    UInt256 { bytes: U256::from_be_bytes(base.bytes).pow(U256::from_be_bytes(exp.bytes)).to_be_bytes() }
}

/// `Uint::checked_add`: the sum, or `None` exactly when it exceeds 2^256 - 1.
#[verifier::external_body]
pub(crate) fn checked_add(a: &UInt256, b: &UInt256) -> (sum: Option<UInt256>)
    ensures
        a@ + b@ <= max_value() ==> sum.is_some() && sum.unwrap()@ == a@ + b@,
        a@ + b@ > max_value() ==> sum.is_none(),
{
    U256::from_be_bytes(a.bytes).checked_add(U256::from_be_bytes(b.bytes)).map(
        |s| UInt256 { bytes: s.to_be_bytes() },
    )
}

/// `Uint::checked_sub`: the difference, or `None` exactly when `b` exceeds `a`.
#[verifier::external_body]
pub(crate) fn checked_sub(a: &UInt256, b: &UInt256) -> (difference: Option<UInt256>)
    ensures
        b@ <= a@ ==> difference.is_some() && difference.unwrap()@ == a@ - b@,
        b@ > a@ ==> difference.is_none(),
{
    U256::from_be_bytes(a.bytes).checked_sub(U256::from_be_bytes(b.bytes)).map(
        |d| UInt256 { bytes: d.to_be_bytes() },
    )
}

/// `Uint::checked_mul`: the product, or `None` exactly when it exceeds 2^256 - 1.
#[verifier::external_body]
pub(crate) fn checked_mul(a: &UInt256, b: &UInt256) -> (product: Option<UInt256>)
    ensures
        a@ * b@ <= max_value() ==> product.is_some() && product.unwrap()@ == a@ * b@,
        a@ * b@ > max_value() ==> product.is_none(),
{
    U256::from_be_bytes(a.bytes).checked_mul(U256::from_be_bytes(b.bytes)).map(
        |p| UInt256 { bytes: p.to_be_bytes() },
    )
}

/// `Uint::checked_div`: the quotient rounded down, or `None` exactly when the
/// divisor is zero.
#[verifier::external_body]
pub(crate) fn checked_div(a: &UInt256, b: &UInt256) -> (quotient: Option<UInt256>)
    ensures
        b@ != 0 ==> quotient.is_some() && quotient.unwrap()@ == a@ / b@,
        b@ == 0 ==> quotient.is_none(),
{
    U256::from_be_bytes(a.bytes).checked_div(U256::from_be_bytes(b.bytes)).map(
        |q| UInt256 { bytes: q.to_be_bytes() },
    )
}

/// `>=` on `Uint` (its `PartialOrd`): whether `a` is at least `b` as numbers.
#[verifier::external_body]
pub(crate) fn at_least(a: &UInt256, b: &UInt256) -> (holds: bool)
    ensures
        holds == (a@ >= b@),
{
    U256::from_be_bytes(a.bytes) >= U256::from_be_bytes(b.bytes)
}

} // verus!
