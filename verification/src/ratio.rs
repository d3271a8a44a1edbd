//! The collateralization invariant that a position must satisfy after an
//! action.
use crate::types::TransitionError;
use crate::word::{
    at_least, checked_div, checked_mul, from_u64, max_value, wad, wad_value, UInt256,
};
use vstd::arithmetic::div_mod::{lemma_fundamental_div_mod, lemma_mod_bound};
use vstd::prelude::*;

verus! {

/// The value of `amount` units of an asset at `price`, both in units of
/// 10^18, rounded down.
pub open spec fn asset_value(amount: nat, price: nat) -> nat {
    amount * price / wad_value()
}

/// The outcome of the ratio check on a position with the given balances.
///
/// Both balances are valued at the collateral asset's price. A position whose
/// debt is worth nothing passes. Otherwise its ratio, the collateral's value
/// as a percentage of the debt's value, scaled by 10^18 and rounded down, must
/// reach `min_ratio`; that is so exactly when the scaled collateral value is
/// at least `min_ratio` times the debt's value, which is how it is stated
/// here (`lemma_ratio_is_quotient` gives the quotient). Every product is
/// formed in 256 bits, and one that does not fit makes the check fail with
/// `Arithmetic`, also where the debt is zero.
pub open spec fn ratio_check(collateral: nat, borrowed: nat, min_ratio: nat, price: nat) -> Result<
    (),
    TransitionError,
> {
    if collateral * price > max_value() || borrowed * price > max_value() {
        Err(TransitionError::Arithmetic)
    } else if asset_value(borrowed, price) == 0 {
        Ok(())
    } else if asset_value(collateral, price) * 100 * wad_value() > max_value() {
        Err(TransitionError::Arithmetic)
    } else if asset_value(collateral, price) * 100 * wad_value() >= min_ratio * asset_value(
        borrowed,
        price,
    ) {
        Ok(())
    } else {
        Err(TransitionError::InvariantViolation)
    }
}

/// The collateralization ratio of a position whose debt has value: the
/// collateral's value as a percentage of the debt's value, scaled by 10^18
/// and rounded down.
pub open spec fn collateralization_ratio(collateral: nat, borrowed: nat, price: nat) -> nat {
    asset_value(collateral, price) * 100 * wad_value() / asset_value(borrowed, price)
}

/// A quotient rounded down reaches `bound` exactly when the dividend reaches
/// `bound` times the divisor.
pub proof fn lemma_quotient_reaches(dividend: nat, divisor: nat, bound: nat)
    requires
        divisor > 0,
    ensures
        dividend / divisor >= bound <==> dividend >= bound * divisor,
{
    lemma_fundamental_div_mod(dividend as int, divisor as int);
    let quotient = dividend as int / divisor as int;
    let remainder = dividend as int % divisor as int;
    assert(0 <= remainder < divisor) by {
        lemma_mod_bound(dividend as int, divisor as int);
    }
    if quotient >= bound {
        assert(divisor * quotient >= bound * divisor) by (nonlinear_arith)
            requires
                quotient >= bound,
                divisor > 0,
        ;
    } else {
        assert(divisor * quotient + divisor <= bound * divisor) by (nonlinear_arith)
            requires
                quotient + 1 <= bound,
                divisor > 0,
        ;
    }
}

/// Checks a position's collateralization ratio against the minimum.
///
/// The debt is valued at the collateral asset's price, the valuation under
/// which committed states were produced. The borrow asset's price belongs to
/// the state and is accepted here, but does not enter the ratio.
pub fn check_collateralization_ratio(
    collateral: UInt256,
    borrowed: UInt256,
    min_collateralization_ratio: UInt256,
    collateral_asset_price: UInt256,
    _borrow_asset_price: UInt256,
) -> (outcome: Result<(), TransitionError>)
    ensures
        outcome == ratio_check(
            collateral@,
            borrowed@,
            min_collateralization_ratio@,
            collateral_asset_price@,
        ),
{
    let wad = wad();
    let collateral_product = match checked_mul(&collateral, &collateral_asset_price) {
        Some(product) => product,
        None => { return Err(TransitionError::Arithmetic); },
    };
    let collateral_value = match checked_div(&collateral_product, &wad) {
        Some(value) => value,
        None => { return Err(TransitionError::Arithmetic); },
    };
    let borrowed_product = match checked_mul(&borrowed, &collateral_asset_price) {
        Some(product) => product,
        None => { return Err(TransitionError::Arithmetic); },
    };
    let borrowed_value = match checked_div(&borrowed_product, &wad) {
        Some(value) => value,
        None => { return Err(TransitionError::Arithmetic); },
    };
    let zero = from_u64(0);
    if borrowed_value.same_value(&zero) {
        return Ok(());
    }
    let hundred = from_u64(100);
    let percent = match checked_mul(&collateral_value, &hundred) {
        Some(product) => product,
        None => {
            assert(collateral_value@ * 100 * wad_value() >= collateral_value@ * 100)
                by (nonlinear_arith)
                requires
                    wad_value() >= 1,
            ;
            return Err(TransitionError::Arithmetic);
        },
    };
    let scaled = match checked_mul(&percent, &wad) {
        Some(product) => product,
        None => { return Err(TransitionError::Arithmetic); },
    };
    let ratio = match checked_div(&scaled, &borrowed_value) {
        Some(quotient) => quotient,
        None => { return Err(TransitionError::Arithmetic); },
    };
    proof {
        lemma_quotient_reaches(scaled@, borrowed_value@, min_collateralization_ratio@);
    }
    if at_least(&ratio, &min_collateralization_ratio) {
        Ok(())
    } else {
        Err(TransitionError::InvariantViolation)
    }
}

/// A position without debt passes the check whatever its collateral and the
/// minimum, provided the collateral's value can be formed in 256 bits.
pub proof fn lemma_zero_debt_passes(collateral: nat, min_ratio: nat, price: nat)
    requires
        collateral * price <= max_value(),
    ensures
        ratio_check(collateral, 0, min_ratio, price) == Ok::<(), TransitionError>(()),
{
    assert(0 * price == 0) by (nonlinear_arith);
}

/// Where the debt has value and every product fits, the check passes
/// exactly when the collateralization ratio reaches the minimum, and fails
/// with `InvariantViolation` otherwise.
pub proof fn lemma_ratio_is_quotient(collateral: nat, borrowed: nat, min_ratio: nat, price: nat)
    requires
        collateral * price <= max_value(),
        borrowed * price <= max_value(),
        asset_value(borrowed, price) != 0,
        asset_value(collateral, price) * 100 * wad_value() <= max_value(),
    ensures
        collateralization_ratio(collateral, borrowed, price) >= min_ratio ==> ratio_check(
            collateral,
            borrowed,
            min_ratio,
            price,
        ) == Ok::<(), TransitionError>(()),
        collateralization_ratio(collateral, borrowed, price) < min_ratio ==> ratio_check(
            collateral,
            borrowed,
            min_ratio,
            price,
        ) == Err::<(), TransitionError>(TransitionError::InvariantViolation),
{
    lemma_quotient_reaches(
        asset_value(collateral, price) * 100 * wad_value(),
        asset_value(borrowed, price),
        min_ratio,
    );
}

} // verus!
