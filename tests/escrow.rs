use housebox::housebox::{
    close_settled_session, initialize, lp_lock, pause, player_deposit, player_settle, player_withdraw,
};
use housebox::state::{Housebox, HouseboxError, MintPolicy, RedemptionPolicy};

const ADMIN: [u8; 32] = [1; 32];
const SERVER: [u8; 32] = [2; 32];
const MINT: [u8; 32] = [3; 32];
const PLAYER: [u8; 32] = [6; 32];
const STRANGER: [u8; 32] = [7; 32];
const S1: [u8; 32] = [8; 32];
const S2: [u8; 32] = [9; 32];

fn house() -> Housebox {
    initialize(ADMIN, SERVER, 80, MINT, MintPolicy::RateAware, RedemptionPolicy::DeferredRatio).unwrap()
}

#[test]
fn deposit_opens_escrow_outside_the_pool() {
    let mut h = house();
    assert_eq!(h.escrow_balance(&PLAYER), None);
    player_deposit(&mut h, PLAYER, 200).unwrap();
    player_deposit(&mut h, PLAYER, 50).unwrap();
    assert_eq!(h.escrow_balance(&PLAYER), Some(250));
    assert_eq!(h.state.solsum, 0);
    assert_eq!(player_deposit(&mut h, PLAYER, 0), Err(HouseboxError::ZeroAmount));
    assert_eq!(player_deposit(&mut h, PLAYER, u64::MAX), Err(HouseboxError::MathOverflow));
    pause(&mut h, ADMIN).unwrap();
    assert_eq!(player_deposit(&mut h, PLAYER, 1), Err(HouseboxError::ProtocolPaused));
}

#[test]
fn settle_loss_then_unaffordable_win() {
    let mut h = house();
    lp_lock(&mut h, 1000).unwrap();
    player_deposit(&mut h, PLAYER, 200).unwrap();
    player_settle(&mut h, SERVER, PLAYER, -50, S1, 10).unwrap();
    assert_eq!(h.escrow_balance(&PLAYER), Some(150));
    assert_eq!(h.state.solsum, 1050);
    h.state.solsum = 10;
    assert_eq!(player_settle(&mut h, SERVER, PLAYER, 9999, S2, 11), Err(HouseboxError::HouseInsolvent));
    assert_eq!(h.escrow_balance(&PLAYER), Some(150));
    assert_eq!(h.state.solsum, 10);
    assert!(!h.is_settled(&S2));
}

#[test]
fn settle_win_moves_reserve_to_escrow() {
    let mut h = house();
    lp_lock(&mut h, 1000).unwrap();
    player_deposit(&mut h, PLAYER, 200).unwrap();
    player_settle(&mut h, SERVER, PLAYER, 300, S1, 10).unwrap();
    assert_eq!(h.escrow_balance(&PLAYER), Some(500));
    assert_eq!(h.state.solsum, 700);
    assert_eq!(h.state.vsum, 1000);
}

#[test]
fn settle_even_only_marks_session() {
    let mut h = house();
    player_deposit(&mut h, PLAYER, 200).unwrap();
    player_settle(&mut h, SERVER, PLAYER, 0, S1, 10).unwrap();
    assert_eq!(h.escrow_balance(&PLAYER), Some(200));
    assert!(h.is_settled(&S1));
}

#[test]
fn settle_replay_refused_whatever_the_result() {
    let mut h = house();
    lp_lock(&mut h, 1000).unwrap();
    player_deposit(&mut h, PLAYER, 200).unwrap();
    player_settle(&mut h, SERVER, PLAYER, -50, S1, 10).unwrap();
    for pnl in [-50i64, 0, 50, i64::MIN, i64::MAX] {
        assert_eq!(player_settle(&mut h, SERVER, PLAYER, pnl, S1, 20), Err(HouseboxError::SessionAlreadySettled));
    }
    assert_eq!(h.escrow_balance(&PLAYER), Some(150));
}

#[test]
fn settle_refusals() {
    let mut h = house();
    assert_eq!(player_settle(&mut h, SERVER, PLAYER, 1, S1, 10), Err(HouseboxError::EscrowNotFound));
    player_deposit(&mut h, PLAYER, 200).unwrap();
    assert_eq!(player_settle(&mut h, STRANGER, PLAYER, 1, S1, 10), Err(HouseboxError::InvalidServerSignature));
    assert_eq!(player_settle(&mut h, SERVER, PLAYER, -201, S1, 10), Err(HouseboxError::InsufficientEscrow));
    assert_eq!(player_settle(&mut h, SERVER, PLAYER, i64::MIN, S1, 10), Err(HouseboxError::InsufficientEscrow));
    pause(&mut h, ADMIN).unwrap();
    assert_eq!(player_settle(&mut h, SERVER, PLAYER, 1, S1, 10), Err(HouseboxError::ProtocolPaused));
    assert!(!h.is_settled(&S1));
}

#[test]
fn settle_loss_overflowing_reserve_refused() {
    let mut h = house();
    player_deposit(&mut h, PLAYER, 200).unwrap();
    h.state.solsum = u64::MAX - 10;
    assert_eq!(player_settle(&mut h, SERVER, PLAYER, -11, S1, 10), Err(HouseboxError::MathOverflow));
    assert_eq!(h.escrow_balance(&PLAYER), Some(200));
}

#[test]
fn withdraw_on_settler_authority_even_when_paused() {
    let mut h = house();
    player_deposit(&mut h, PLAYER, 200).unwrap();
    pause(&mut h, ADMIN).unwrap();
    player_withdraw(&mut h, SERVER, PLAYER, PLAYER, 120).unwrap();
    assert_eq!(h.escrow_balance(&PLAYER), Some(80));
}

#[test]
fn withdraw_refusals() {
    let mut h = house();
    assert_eq!(player_withdraw(&mut h, SERVER, PLAYER, PLAYER, 1), Err(HouseboxError::EscrowNotFound));
    player_deposit(&mut h, PLAYER, 200).unwrap();
    assert_eq!(player_withdraw(&mut h, PLAYER, PLAYER, PLAYER, 1), Err(HouseboxError::InvalidServerSignature));
    assert_eq!(player_withdraw(&mut h, SERVER, PLAYER, PLAYER, 0), Err(HouseboxError::ZeroAmount));
    assert_eq!(player_withdraw(&mut h, SERVER, PLAYER, PLAYER, 201), Err(HouseboxError::InsufficientEscrow));
    assert_eq!(player_withdraw(&mut h, SERVER, PLAYER, STRANGER, 10), Err(HouseboxError::WithdrawalAddressMismatch));
    assert_eq!(h.escrow_balance(&PLAYER), Some(200));
}

#[test]
fn settled_session_closes_after_an_hour() {
    let mut h = house();
    player_deposit(&mut h, PLAYER, 200).unwrap();
    player_settle(&mut h, SERVER, PLAYER, 0, S1, 1000).unwrap();
    assert_eq!(close_settled_session(&mut h, STRANGER, S1, 5000), Err(HouseboxError::Unauthorized));
    assert_eq!(close_settled_session(&mut h, SERVER, S1, 4599), Err(HouseboxError::SettlementTooRecent));
    assert_eq!(close_settled_session(&mut h, SERVER, S1, 4600), Ok(()));
    assert!(!h.is_settled(&S1));
    assert_eq!(close_settled_session(&mut h, SERVER, S1, 4601), Err(HouseboxError::SessionNotFound));
    assert_eq!(h.escrow_balance(&PLAYER), Some(200));
}
