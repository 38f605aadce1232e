//! Guard and burn-calculator behavior on concrete values.

use ovt_program::burn::calculate_buyback_burn;
use ovt_program::error::{OVTError, ProgramError};
use ovt_program::state::{validate_nav_change, validate_supply_bound, OVTState, INITIAL_NAV_SATS};

fn state_with(nav_sats: u64, total_supply: u64) -> OVTState {
    OVTState { nav_sats, treasury_pubkey_bytes: [0u8; 33], total_supply, last_nav_update: 0 }
}

#[test]
fn nav_step_upper_boundary_inclusive() {
    // A step to exactly five times the current NAV is accepted; one
    // satoshi more is rejected.
    assert!(validate_nav_change(1_000_000, 5_000_000, 1_000_000).is_ok());
    assert_eq!(
        validate_nav_change(1_000_000, 5_000_001, 1_000_000),
        Err(OVTError::InvalidNAVUpdate)
    );
}

#[test]
fn nav_step_lower_boundary_inclusive() {
    // A step to exactly one fifth of the current NAV is accepted; one
    // satoshi less is rejected.
    assert!(validate_nav_change(1_000_000, 200_000, 1_000_000).is_ok());
    assert_eq!(
        validate_nav_change(1_000_000, 199_999, 1_000_000),
        Err(OVTError::InvalidNAVUpdate)
    );
}

#[test]
fn nav_first_update_unconstrained() {
    // A zero current NAV signals an uninitialized baseline: any candidate
    // is accepted.
    assert!(validate_nav_change(0, 1, 1_000_000).is_ok());
    assert!(validate_nav_change(0, u64::MAX, 1_000_000).is_ok());
}

#[test]
fn nav_cumulative_bound_enforced() {
    // A step within the single-step band can still breach the cumulative
    // cap against the genesis baseline.
    assert!(validate_nav_change(25_000_000, 41_000_000, 1_000_000).is_ok());
    assert_eq!(
        validate_nav_change(25_000_000, 41_000_001, 1_000_000),
        Err(OVTError::InvalidNAVUpdate)
    );
    // And the lower cumulative cap: one twentieth of genesis.
    assert!(validate_nav_change(100_000, 50_000, 1_000_000).is_ok());
    assert_eq!(
        validate_nav_change(100_000, 49_999, 1_000_000),
        Err(OVTError::InvalidNAVUpdate)
    );
}

#[test]
fn nav_method_uses_genesis_baseline() {
    assert_eq!(INITIAL_NAV_SATS, 1_000_000);
    let state = state_with(1_000_000, 0);
    assert!(state.validate_nav_update(5_000_000).is_ok());
    assert_eq!(
        state.validate_nav_update(5_000_001),
        Err(ProgramError::InvalidNAVUpdate)
    );
}

#[test]
fn supply_band_boundaries_inclusive() {
    // Exactly -10% and +10% are accepted; a token beyond either is not.
    assert!(validate_supply_bound(1_000_000, 900_000).is_ok());
    assert!(validate_supply_bound(1_000_000, 1_100_000).is_ok());
    assert_eq!(
        validate_supply_bound(1_000_000, 899_999),
        Err(OVTError::InvalidSupplyChange)
    );
    assert_eq!(
        validate_supply_bound(1_000_000, 1_100_001),
        Err(OVTError::InvalidSupplyChange)
    );
}

#[test]
fn supply_first_change_unconstrained() {
    assert!(validate_supply_bound(0, u64::MAX).is_ok());
}

#[test]
fn supply_method_matches_free_guard() {
    let state = state_with(0, 1_000_000);
    assert!(state.validate_supply_change(900_000).is_ok());
    assert_eq!(
        state.validate_supply_change(899_999),
        Err(ProgramError::InvalidSupplyChange)
    );
}

#[test]
fn burn_conservation_at_minus_ten_percent() {
    // 100k sats against a 1M supply at a 1M NAV burns exactly 100k
    // tokens, landing exactly on the -10% boundary, which is accepted.
    let (burn, new_supply) = calculate_buyback_burn(100_000, 1_000_000, 1_000_000).unwrap();
    assert_eq!(burn, 100_000);
    assert_eq!(new_supply, 900_000);
    assert!(validate_supply_bound(1_000_000, new_supply).is_ok());
}

#[test]
fn burn_rounds_down() {
    // floor(3 * 10 / 4) = 7.
    let (burn, new_supply) = calculate_buyback_burn(3, 10, 4).unwrap();
    assert_eq!(burn, 7);
    assert_eq!(new_supply, 3);
}

#[test]
fn burn_rejects_zero_nav() {
    assert_eq!(
        calculate_buyback_burn(100_000, 1_000_000, 0),
        Err(OVTError::InvalidNAVUpdate)
    );
}

#[test]
fn burn_rejects_exceeding_supply() {
    // A payment above the NAV would burn more tokens than exist.
    assert_eq!(
        calculate_buyback_burn(2_000_000, 1_000_000, 1_000_000),
        Err(OVTError::InvalidSupplyChange)
    );
}

#[test]
fn burn_handles_full_width_product() {
    // The 64x64-bit product is computed at full width: no overflow, and
    // the result is rejected only because it exceeds the supply bound.
    assert_eq!(
        calculate_buyback_burn(u64::MAX, u64::MAX, 1),
        Err(OVTError::InvalidSupplyChange)
    );
    // Burning everything from a supply of one at an enormous NAV.
    let (burn, new_supply) = calculate_buyback_burn(u64::MAX, 1, u64::MAX).unwrap();
    assert_eq!(burn, 1);
    assert_eq!(new_supply, 0);
}

#[test]
fn domain_errors_surface_as_typed_variants() {
    assert_eq!(
        OVTError::InvalidNAVUpdate.to_program_error(),
        ProgramError::InvalidNAVUpdate
    );
    assert_eq!(
        OVTError::InvalidSupplyChange.to_program_error(),
        ProgramError::InvalidSupplyChange
    );
    assert_eq!(OVTError::ArithmeticOverflow.to_program_error(), ProgramError::Overflow);
    assert_eq!(OVTError::InvalidAuthority.to_program_error(), ProgramError::InvalidArgument);
    assert_eq!(
        OVTError::ProgramError(ProgramError::AccountNotFound).to_program_error(),
        ProgramError::AccountNotFound
    );
}
