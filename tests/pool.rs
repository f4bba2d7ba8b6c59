use housebox::housebox::{initialize, lp_lock, pause, LockReceipt};
use housebox::state::{Housebox, HouseboxError, MintPolicy, RedemptionPolicy};

const ADMIN: [u8; 32] = [1; 32];
const SERVER: [u8; 32] = [2; 32];
const MINT: [u8; 32] = [3; 32];

fn house(lp_percent: u8, mint_policy: MintPolicy) -> Housebox {
    initialize(ADMIN, SERVER, lp_percent, MINT, mint_policy, RedemptionPolicy::DeferredRatio).unwrap()
}

#[test]
fn bootstrap_lock_mints_amount() {
    let mut h = house(80, MintPolicy::RateAware);
    let r = lp_lock(&mut h, 1234).unwrap();
    assert_eq!(r, LockReceipt { minted: 1234, lp_shares: 987, protocol_shares: 247 });
    assert_eq!(h.state.solsum, 1234);
    assert_eq!(h.state.vsum, 1234);
}

#[test]
fn steady_lock_example() {
    let mut h = house(80, MintPolicy::RateAware);
    h.state.solsum = 1000;
    h.state.vsum = 1000;
    let r = lp_lock(&mut h, 500).unwrap();
    assert_eq!(r, LockReceipt { minted: 500, lp_shares: 400, protocol_shares: 100 });
    assert_eq!(h.state.solsum, 1500);
    assert_eq!(h.state.vsum, 1500);
}

#[test]
fn steady_lock_rounds_down() {
    let mut h = house(75, MintPolicy::RateAware);
    h.state.solsum = 3000;
    h.state.vsum = 1000;
    // 1000 * 1000 / 3000 = 333.3
    let r = lp_lock(&mut h, 1000).unwrap();
    assert_eq!(r, LockReceipt { minted: 333, lp_shares: 249, protocol_shares: 84 });
    assert_eq!(h.state.solsum, 4000);
    assert_eq!(h.state.vsum, 1333);
}

#[test]
fn full_lp_percent_leaves_protocol_nothing() {
    let mut h = house(100, MintPolicy::RateAware);
    let r = lp_lock(&mut h, 77).unwrap();
    assert_eq!(r, LockReceipt { minted: 77, lp_shares: 77, protocol_shares: 0 });
}

#[test]
fn lock_too_small_for_a_share() {
    let mut h = house(80, MintPolicy::RateAware);
    h.state.solsum = 1000;
    h.state.vsum = 10;
    assert_eq!(lp_lock(&mut h, 99), Err(HouseboxError::AmountTooSmall));
    assert_eq!(h.state.solsum, 1000);
    assert_eq!(h.state.vsum, 10);
}

#[test]
fn lock_of_zero_refused() {
    let mut h = house(80, MintPolicy::RateAware);
    assert_eq!(lp_lock(&mut h, 0), Err(HouseboxError::ZeroAmount));
}

#[test]
fn lock_while_paused_refused() {
    let mut h = house(80, MintPolicy::RateAware);
    pause(&mut h, ADMIN).unwrap();
    assert_eq!(lp_lock(&mut h, 10), Err(HouseboxError::ProtocolPaused));
}

#[test]
fn lock_into_drained_reserve_overflows() {
    let mut h = house(80, MintPolicy::RateAware);
    h.state.solsum = 0;
    h.state.vsum = 500;
    assert_eq!(lp_lock(&mut h, 10), Err(HouseboxError::MathOverflow));
}

#[test]
fn lock_minting_beyond_64_bits_overflows() {
    let mut h = house(80, MintPolicy::RateAware);
    h.state.solsum = 1;
    h.state.vsum = u64::MAX;
    assert_eq!(lp_lock(&mut h, 2), Err(HouseboxError::MathOverflow));
    assert_eq!(h.state.vsum, u64::MAX);
}

#[test]
fn lock_overflowing_reserve_refused() {
    let mut h = house(80, MintPolicy::OneToOne);
    h.state.solsum = u64::MAX - 5;
    h.state.vsum = 1;
    assert_eq!(lp_lock(&mut h, 6), Err(HouseboxError::MathOverflow));
    assert_eq!(h.state.solsum, u64::MAX - 5);
}

#[test]
fn one_to_one_policy_ignores_ratio() {
    let mut h = house(80, MintPolicy::OneToOne);
    h.state.solsum = 3000;
    h.state.vsum = 1000;
    let r = lp_lock(&mut h, 1000).unwrap();
    assert_eq!(r, LockReceipt { minted: 1000, lp_shares: 800, protocol_shares: 200 });
    assert_eq!(h.state.vsum, 2000);
}

#[test]
fn locks_never_dilute_existing_shares() {
    let mut h = house(80, MintPolicy::RateAware);
    lp_lock(&mut h, 1000).unwrap();
    h.state.solsum = 1700;
    for amount in [3u64, 999, 12345, 7, 1_000_000] {
        let (r0, s0) = (h.state.solsum as u128, h.state.vsum as u128);
        let receipt = lp_lock(&mut h, amount).unwrap();
        let (r1, s1) = (h.state.solsum as u128, h.state.vsum as u128);
        assert!(s1 * r0 <= s0 * r1);
        assert!((amount as u128) * s1 < (receipt.minted as u128 + 1) * r1);
    }
}
