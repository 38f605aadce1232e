//! Buyback/burn calculator.
//!
//! Given a Bitcoin payment and the current state, the number of tokens to
//! retire is `floor(payment_amount_sats * total_supply / nav_sats)`,
//! computed at 128-bit width so the full 64x64-bit product never
//! overflows.  A zero NAV rejects the computation outright; a burn larger
//! than the supply (including one that does not fit the output width) is an
//! invalid supply change.

use vstd::prelude::*;

use crate::error::OVTError;

verus! {

/// Number of tokens a payment retires: `floor(payment * supply / nav)`.
pub open spec fn burn_amount(payment: int, supply: int, nav: int) -> int
    recommends
        nav > 0,
{
    (payment * supply) / nav
}

/// Computes the burn for a payment and the resulting supply.
///
/// Succeeds exactly when the NAV is positive and the computed burn does not
/// exceed the current supply; the result is the pair of the burn and the
/// new supply.
pub fn calculate_buyback_burn(payment_amount_sats: u64, total_supply: u64, nav_sats: u64) -> (r:
    Result<(u64, u64), OVTError>)
    ensures
        nav_sats == 0 ==> r == Err::<(u64, u64), OVTError>(OVTError::InvalidNAVUpdate),
        nav_sats > 0 && burn_amount(
            payment_amount_sats as int,
            total_supply as int,
            nav_sats as int,
        ) > total_supply ==> r == Err::<(u64, u64), OVTError>(OVTError::InvalidSupplyChange),
        nav_sats > 0 && burn_amount(
            payment_amount_sats as int,
            total_supply as int,
            nav_sats as int,
        ) <= total_supply ==> (r matches Ok(p) && p.0 == burn_amount(
            payment_amount_sats as int,
            total_supply as int,
            nav_sats as int,
        ) && p.1 == total_supply - p.0),
{
    if nav_sats == 0 {
        return Err(OVTError::InvalidNAVUpdate);
    }
    let payment = payment_amount_sats as u128;
    let supply = total_supply as u128;
    let nav = nav_sats as u128;
    proof {
        assert(payment * supply <= u64::MAX as u128 * (u64::MAX as u128)) by (nonlinear_arith)
            requires
                payment <= u64::MAX as u128,
                supply <= u64::MAX as u128,
        ;
    }
    let product = payment * supply;
    let quotient = product / nav;
    if quotient > total_supply as u128 {
        return Err(OVTError::InvalidSupplyChange);
    }
    let ovt_to_burn = quotient as u64;
    let new_supply = total_supply - ovt_to_burn;
    Ok((ovt_to_burn, new_supply))
}

} // verus!
