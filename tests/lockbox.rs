use housebox::lockbox::{deposit_sol, initialize, withdraw_sol, LockboxError, CHIPS_PER_SOL};

const ADMIN: [u8; 32] = [1; 32];
const CHIPS: [u8; 32] = [11; 32];

#[test]
fn deposit_one_sol_gives_a_thousand_chips() {
    let mut s = initialize(ADMIN, CHIPS);
    assert_eq!(s.chips_per_sol, CHIPS_PER_SOL);
    assert_eq!(deposit_sol(&mut s, 1_000_000_000), Ok(1000));
    assert_eq!(deposit_sol(&mut s, 2_500_000), Ok(2));
    assert_eq!(s.total_sol_deposited, 1_002_500_000);
}

#[test]
fn chip_deposit_refusals() {
    let mut s = initialize(ADMIN, CHIPS);
    assert_eq!(deposit_sol(&mut s, 0), Err(LockboxError::ZeroAmount));
    assert_eq!(deposit_sol(&mut s, 999_999), Err(LockboxError::AmountTooSmall));
    assert_eq!(deposit_sol(&mut s, u64::MAX), Err(LockboxError::MathOverflow));
    s.total_sol_deposited = u64::MAX - 1;
    assert_eq!(deposit_sol(&mut s, 1_000_000), Err(LockboxError::MathOverflow));
    assert_eq!(s.total_sol_deposited, u64::MAX - 1);
}

#[test]
fn withdraw_chips_for_sol() {
    let mut s = initialize(ADMIN, CHIPS);
    deposit_sol(&mut s, 3_000_000_000).unwrap();
    assert_eq!(withdraw_sol(&mut s, 1500, 3_000_000_000), Ok(1_500_000_000));
    assert_eq!(s.total_sol_deposited, 1_500_000_000);
}

#[test]
fn chip_withdraw_refusals() {
    let mut s = initialize(ADMIN, CHIPS);
    deposit_sol(&mut s, 1_000_000_000).unwrap();
    assert_eq!(withdraw_sol(&mut s, 0, 10_000_000_000), Err(LockboxError::ZeroAmount));
    assert_eq!(withdraw_sol(&mut s, u64::MAX, u64::MAX), Err(LockboxError::MathOverflow));
    assert_eq!(withdraw_sol(&mut s, 1000, 999_999_999), Err(LockboxError::InsufficientVaultBalance));
    assert_eq!(withdraw_sol(&mut s, 2000, 10_000_000_000), Err(LockboxError::MathOverflow));
    assert_eq!(s.total_sol_deposited, 1_000_000_000);
}

#[test]
fn chip_errors_read_as_sentences() {
    assert_eq!(LockboxError::InsufficientVaultBalance.message(), "Insufficient SOL in vault");
}
