use housebox::housebox::{
    close_expired_redemption, execute_redemption, initialize, lp_lock, pause, request_redemption,
    RedemptionTransfer,
};
use housebox::state::{Housebox, HouseboxError, MintPolicy, RedemptionPolicy, RedemptionRequest};

const ADMIN: [u8; 32] = [1; 32];
const SERVER: [u8; 32] = [2; 32];
const MINT: [u8; 32] = [3; 32];
const LP: [u8; 32] = [4; 32];
const OTHER: [u8; 32] = [5; 32];

fn house(policy: RedemptionPolicy) -> Housebox {
    let mut h = initialize(ADMIN, SERVER, 80, MINT, MintPolicy::RateAware, policy).unwrap();
    lp_lock(&mut h, 1000).unwrap();
    h
}

#[test]
fn deferred_request_records_intent_only() {
    let mut h = house(RedemptionPolicy::DeferredRatio);
    let r = request_redemption(&mut h, LP, 400, 100, 800).unwrap();
    assert_eq!(r, RedemptionTransfer { shares_burned: 0, lamports_paid: 0 });
    assert_eq!(h.state.solsum, 1000);
    assert_eq!(h.state.vsum, 1000);
    assert_eq!(
        h.pending_redemption(&LP),
        Some(RedemptionRequest { lp: LP, vtoken_amount: 400, sol_amount: 0, requested_at: 100 })
    );
}

#[test]
fn second_request_while_pending_refused() {
    let mut h = house(RedemptionPolicy::DeferredRatio);
    request_redemption(&mut h, LP, 400, 100, 800).unwrap();
    assert_eq!(request_redemption(&mut h, LP, 1, 101, 800), Err(HouseboxError::RedemptionPending));
}

#[test]
fn request_refusals() {
    let mut h = house(RedemptionPolicy::DeferredRatio);
    assert_eq!(request_redemption(&mut h, LP, 0, 100, 800), Err(HouseboxError::ZeroAmount));
    let mut empty = initialize(ADMIN, SERVER, 80, MINT, MintPolicy::RateAware, RedemptionPolicy::DeferredRatio).unwrap();
    assert_eq!(request_redemption(&mut empty, LP, 5, 100, 800), Err(HouseboxError::NoLiquidity));
    pause(&mut h, ADMIN).unwrap();
    assert_eq!(request_redemption(&mut h, LP, 5, 100, 800), Err(HouseboxError::ProtocolPaused));
}

#[test]
fn deferred_execution_window() {
    let mut h = house(RedemptionPolicy::DeferredRatio);
    request_redemption(&mut h, LP, 400, 100, 800).unwrap();
    assert_eq!(execute_redemption(&mut h, LP, LP, 159, 800), Err(HouseboxError::RedemptionNotReady));
    assert_eq!(execute_redemption(&mut h, LP, LP, 221, 800), Err(HouseboxError::RedemptionExpired));
    assert_eq!(close_expired_redemption(&mut h, LP, 220), Err(HouseboxError::RedemptionNotExpired));
    assert_eq!(close_expired_redemption(&mut h, LP, 159), Err(HouseboxError::RedemptionNotExpired));
    let r = execute_redemption(&mut h, LP, LP, 220, 800).unwrap();
    assert_eq!(r, RedemptionTransfer { shares_burned: 400, lamports_paid: 400 });
}

#[test]
fn deferred_execution_at_maturity_uses_current_ratio() {
    let mut h = house(RedemptionPolicy::DeferredRatio);
    request_redemption(&mut h, LP, 400, 100, 800).unwrap();
    // the pool gains while the request waits
    h.state.solsum = 1500;
    let r = execute_redemption(&mut h, LP, LP, 160, 800).unwrap();
    assert_eq!(r, RedemptionTransfer { shares_burned: 400, lamports_paid: 600 });
    assert_eq!(h.state.solsum, 900);
    assert_eq!(h.state.vsum, 600);
    assert_eq!(h.pending_redemption(&LP), None);
}

#[test]
fn executed_redemption_cannot_run_again() {
    let mut h = house(RedemptionPolicy::DeferredRatio);
    request_redemption(&mut h, LP, 400, 100, 800).unwrap();
    execute_redemption(&mut h, LP, LP, 170, 800).unwrap();
    assert_eq!(execute_redemption(&mut h, LP, LP, 171, 800), Err(HouseboxError::RedemptionNotFound));
    assert_eq!(h.state.vsum, 600);
}

#[test]
fn deferred_execution_only_by_the_lp() {
    let mut h = house(RedemptionPolicy::DeferredRatio);
    request_redemption(&mut h, LP, 400, 100, 800).unwrap();
    assert_eq!(execute_redemption(&mut h, OTHER, LP, 170, 800), Err(HouseboxError::Unauthorized));
}

#[test]
fn deferred_execution_needs_the_shares_still_held() {
    let mut h = house(RedemptionPolicy::DeferredRatio);
    request_redemption(&mut h, LP, 400, 100, 800).unwrap();
    assert_eq!(execute_redemption(&mut h, LP, LP, 170, 399), Err(HouseboxError::InsufficientVtokens));
}

#[test]
fn deferred_execution_worth_nothing_refused() {
    let mut h = house(RedemptionPolicy::DeferredRatio);
    request_redemption(&mut h, LP, 1, 100, 800).unwrap();
    h.state.solsum = 999;
    assert_eq!(execute_redemption(&mut h, LP, LP, 170, 800), Err(HouseboxError::AmountTooSmall));
}

#[test]
fn expired_request_closed_by_anyone() {
    let mut h = house(RedemptionPolicy::DeferredRatio);
    request_redemption(&mut h, LP, 400, 100, 800).unwrap();
    assert_eq!(close_expired_redemption(&mut h, LP, 221), Ok(()));
    assert_eq!(h.pending_redemption(&LP), None);
    assert_eq!(h.state.solsum, 1000);
    assert_eq!(close_expired_redemption(&mut h, LP, 222), Err(HouseboxError::RedemptionNotFound));
    assert!(request_redemption(&mut h, LP, 10, 300, 800).is_ok());
}

#[test]
fn fixed_request_burns_and_reserves_payout() {
    let mut h = house(RedemptionPolicy::FixedAtRequest);
    h.state.solsum = 2000;
    let r = request_redemption(&mut h, LP, 300, 100, 800).unwrap();
    assert_eq!(r, RedemptionTransfer { shares_burned: 300, lamports_paid: 0 });
    assert_eq!(h.state.solsum, 1400);
    assert_eq!(h.state.vsum, 700);
    assert_eq!(
        h.pending_redemption(&LP),
        Some(RedemptionRequest { lp: LP, vtoken_amount: 300, sol_amount: 600, requested_at: 100 })
    );
}

#[test]
fn fixed_request_needs_the_shares() {
    let mut h = house(RedemptionPolicy::FixedAtRequest);
    assert_eq!(request_redemption(&mut h, LP, 300, 100, 299), Err(HouseboxError::InsufficientVtokens));
    assert_eq!(h.state.vsum, 1000);
}

#[test]
fn fixed_execution_by_anyone_after_delay_without_expiry() {
    let mut h = house(RedemptionPolicy::FixedAtRequest);
    request_redemption(&mut h, LP, 300, 100, 800).unwrap();
    h.state.solsum = 5;
    assert_eq!(execute_redemption(&mut h, OTHER, LP, 159, 0), Err(HouseboxError::RedemptionNotReady));
    assert_eq!(close_expired_redemption(&mut h, LP, 10_000), Err(HouseboxError::RedemptionNotExpired));
    let r = execute_redemption(&mut h, OTHER, LP, 10_000, 0).unwrap();
    assert_eq!(r, RedemptionTransfer { shares_burned: 0, lamports_paid: 300 });
    assert_eq!(h.state.solsum, 5);
    assert_eq!(execute_redemption(&mut h, OTHER, LP, 10_001, 0), Err(HouseboxError::RedemptionNotFound));
}
