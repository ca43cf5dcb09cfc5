use subscriptions::error::{ProgramError, SubscriptionsError};
use subscriptions::rent::{rent_requirement, RentRequirement, RENT_SYSVAR_LEN};

fn sysvar(lamports_per_byte: u64, threshold: f64, burn_percent: u8) -> [u8; RENT_SYSVAR_LEN] {
    let mut raw = [0u8; RENT_SYSVAR_LEN];
    raw[0..8].copy_from_slice(&lamports_per_byte.to_le_bytes());
    raw[8..16].copy_from_slice(&threshold.to_le_bytes());
    raw[16] = burn_percent;
    raw
}

#[test]
fn matches_solana() {
    let solana = sysvar(5080, 1.0, 50);
    assert_eq!(rent_requirement(&solana, 0), Ok(RentRequirement::Exact(650_240)));
    assert_eq!(rent_requirement(&solana, 491), Ok(RentRequirement::Exact(3_144_520)));
    assert_eq!(rent_requirement(&solana, 127_640), Ok(RentRequirement::Exact(649_061_440)));
}

#[test]
fn fogo_requirement_is_scaled_by_its_threshold() {
    let fogo = sysvar(3480, 2.0, 100);
    let two = 2.0f64.to_bits();
    assert_eq!(rent_requirement(&fogo, 0), Ok(RentRequirement::Scaled { base: 445_440, threshold_bits: two }));
    assert_eq!(rent_requirement(&fogo, 491), Ok(RentRequirement::Scaled { base: 2_154_120, threshold_bits: two }));
    assert_eq!(rent_requirement(&fogo, 127_640), Ok(RentRequirement::Scaled { base: 444_632_640, threshold_bits: two }));
}

#[test]
fn rejects_bad_input() {
    assert!(rent_requirement(&sysvar(3480, 2.0, 100), 10 * 1024 * 1024 + 1).is_err());
    assert!(rent_requirement(&sysvar(3480, f64::NAN, 100), 1).is_err());
    assert!(rent_requirement(&sysvar(3480, 0.0, 100), 1).is_err());
    assert!(rent_requirement(&sysvar(u64::MAX, 1.0, 100), 1).is_err());
}

#[test]
fn error_kinds_for_bad_input() {
    assert_eq!(rent_requirement(&sysvar(3480, 2.0, 100), 10 * 1024 * 1024 + 1), Err(ProgramError::InvalidArgument));
    assert_eq!(rent_requirement(&sysvar(3480, f64::NAN, 100), 1), Err(ProgramError::InvalidArgument));
    assert_eq!(rent_requirement(&sysvar(3480, 0.0, 100), 1), Err(ProgramError::InvalidArgument));
    assert_eq!(rent_requirement(&sysvar(3480, -0.0, 100), 1), Err(ProgramError::InvalidArgument));
    assert_eq!(rent_requirement(&sysvar(3480, -2.0, 100), 1), Err(ProgramError::InvalidArgument));
    assert_eq!(rent_requirement(&sysvar(3480, f64::INFINITY, 100), 1), Err(ProgramError::InvalidArgument));
    assert_eq!(
        rent_requirement(&sysvar(u64::MAX, 1.0, 100), 1),
        Err(ProgramError::Custom(SubscriptionsError::ArithmeticOverflow))
    );
    // the product is checked before the threshold
    assert_eq!(
        rent_requirement(&sysvar(u64::MAX, f64::NAN, 100), 1),
        Err(ProgramError::Custom(SubscriptionsError::ArithmeticOverflow))
    );
}

#[test]
fn edge_lengths_and_thresholds() {
    let max = 10 * 1024 * 1024;
    assert_eq!(rent_requirement(&sysvar(1, 1.0, 0), max), Ok(RentRequirement::Exact(128 + max as u64)));
    let tiny = f64::from_bits(1);
    assert_eq!(rent_requirement(&sysvar(2, tiny, 0), 0), Ok(RentRequirement::Scaled { base: 256, threshold_bits: 1 }));
    let biggest = f64::MAX;
    assert_eq!(
        rent_requirement(&sysvar(2, biggest, 0), 0),
        Ok(RentRequirement::Scaled { base: 256, threshold_bits: f64::MAX.to_bits() })
    );
    // the burn percent does not change the requirement
    assert_eq!(rent_requirement(&sysvar(9, 1.0, 0), 7), rent_requirement(&sysvar(9, 1.0, 255), 7));
}
