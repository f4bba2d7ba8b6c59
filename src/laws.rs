//! Properties of the house that span its operations, proved over their
//! step functions.

use vstd::prelude::*;
use crate::housebox::{
    close_expired_step, execute_step, expires_at, lock_step, matures_at, request_step, settle_step, LockReceipt,
    RedemptionTransfer,
};
use crate::keys::{Address, SessionId};
use crate::shares::{lemma_floor_bounds, lemma_redeem_within_reserve, lp_part, mint_quote, redeem_quote};
use crate::state::{HouseboxError, HouseboxView, MintPolicy, RedemptionPolicy};

verus! {

/// The ledger after a run of locks, one after another; a lock that fails
/// leaves the ledger as it was.
pub open spec fn lock_all(v: HouseboxView, amounts: Seq<u64>) -> HouseboxView
    decreases amounts.len(),
{
    if amounts.len() == 0 {
        v
    } else {
        lock_all(lock_step(v, amounts[0]).1, amounts.drop_first())
    }
}

/// A rate-aware lock neither dilutes the shares already out (shares per
/// unit of reserve do not rise) nor shortchanges the depositor by more than
/// rounding: the deposit is worth less than one share more than it minted.
pub proof fn lemma_lock_keeps_share_value(v: HouseboxView, amount: u64)
    requires
        v.wf(),
        v.state.mint_policy == MintPolicy::RateAware,
    ensures
        ({
            let (r, w) = lock_step(v, amount);
            &&& w.state.vsum * v.state.solsum <= v.state.vsum * w.state.solsum
            &&& r matches Ok(receipt) ==> amount * w.state.vsum < (receipt.minted + 1) * w.state.solsum
            &&& r matches Ok(receipt) ==> receipt.lp_shares + receipt.protocol_shares == receipt.minted
        }),
{
    let (r, w) = lock_step(v, amount);
    let r0 = v.state.solsum as int;
    let s0 = v.state.vsum as int;
    let a = amount as int;
    if r is Ok {
        let m = r.unwrap().minted as int;
        let lp = lp_part(m, v.state.lp_percent as int);
        assert(0 <= m * v.state.lp_percent) by (nonlinear_arith)
            requires 0 <= m, 0 <= v.state.lp_percent;
        lemma_floor_bounds(m * v.state.lp_percent, 100);
        assert(lp <= m) by (nonlinear_arith)
            requires lp * 100 <= m * v.state.lp_percent, v.state.lp_percent <= 100, 0 <= m;
        assert(0 <= lp) by (nonlinear_arith)
            requires 0 <= m * v.state.lp_percent, lp == (m * v.state.lp_percent) / 100;
        if r0 == 0 && s0 == 0 {
            assert(w.state.solsum == a && w.state.vsum == a);
            assert(a * a < (a + 1) * a) by (nonlinear_arith)
                requires a > 0;
        } else {
            assert(r0 > 0);
            assert(0 <= a * s0) by (nonlinear_arith)
                requires 0 <= a, 0 <= s0;
            lemma_floor_bounds(a * s0, r0);
            assert(m == mint_quote(a, r0, s0));
            assert(m * r0 <= a * s0 < (m + 1) * r0);
            assert((s0 + m) * r0 <= s0 * (r0 + a)) by (nonlinear_arith)
                requires m * r0 <= a * s0;
            assert(a * (s0 + m) < (m + 1) * (r0 + a)) by (nonlinear_arith)
                requires a * s0 < (m + 1) * r0, 0 <= m, a > 0;
        }
    }
}

/// Over any run of rate-aware locks the shares per unit of reserve never
/// rise: what each outstanding share is worth never falls.
pub proof fn lemma_locks_keep_share_value(v: HouseboxView, amounts: Seq<u64>)
    requires
        v.wf(),
        v.state.mint_policy == MintPolicy::RateAware,
    ensures
        lock_all(v, amounts).state.vsum * v.state.solsum <= v.state.vsum * lock_all(v, amounts).state.solsum,
    decreases amounts.len(),
{
    if amounts.len() > 0 {
        let v1 = lock_step(v, amounts[0]).1;
        lemma_lock_keeps_share_value(v, amounts[0]);
        lemma_locks_keep_share_value(v1, amounts.drop_first());
        let w = lock_all(v1, amounts.drop_first());
        let (r0, s0) = (v.state.solsum as int, v.state.vsum as int);
        let (r1, s1) = (v1.state.solsum as int, v1.state.vsum as int);
        let (r2, s2) = (w.state.solsum as int, w.state.vsum as int);
        if lock_step(v, amounts[0]).0 is Ok {
            assert(r1 > 0);
            assert(s2 * r0 <= s0 * r2) by (nonlinear_arith)
                requires s1 * r0 <= s0 * r1, s2 * r1 <= s1 * r2, r1 > 0, 0 <= r0, 0 <= s0, 0 <= r2, 0 <= s2;
        } else {
            assert(v1 == v);
        }
    }
}

/// A redemption priced at the pool's ratio, whether at execution or at
/// request, leaves the shares that remain worth no less each: shares per unit
/// of reserve do not fall below what they were.
pub proof fn lemma_redemption_keeps_share_value(
    v: HouseboxView,
    caller: Address,
    lp: Address,
    vtoken_amount: u64,
    now: i64,
    lp_vtoken_balance: u64,
)
    requires
        v.wf(),
    ensures
        ({
            let w = execute_step(v, caller, lp, now, lp_vtoken_balance).1;
            w.state.vsum * v.state.solsum <= v.state.vsum * w.state.solsum
        }),
        ({
            let w = request_step(v, lp, vtoken_amount, now, lp_vtoken_balance).1;
            w.state.vsum * v.state.solsum <= v.state.vsum * w.state.solsum
        }),
{
    let (r0, s0) = (v.state.solsum as int, v.state.vsum as int);
    if execute_step(v, caller, lp, now, lp_vtoken_balance).0 is Ok
        && v.state.redemption_policy == RedemptionPolicy::DeferredRatio {
        let a = v.redemptions[lp].vtoken_amount as int;
        lemma_share_ratio_after_redeem(a, r0, s0);
    }
    if request_step(v, lp, vtoken_amount, now, lp_vtoken_balance).0 is Ok
        && v.state.redemption_policy == RedemptionPolicy::FixedAtRequest {
        lemma_share_ratio_after_redeem(vtoken_amount as int, r0, s0);
    }
}

proof fn lemma_share_ratio_after_redeem(a: int, r0: int, s0: int)
    requires
        0 <= a <= s0,
        0 <= r0,
        0 < s0,
    ensures
        (s0 - a) * r0 <= s0 * (r0 - redeem_quote(a, r0, s0)),
        redeem_quote(a, r0, s0) <= r0,
{
    assert(0 <= a * r0) by (nonlinear_arith)
        requires 0 <= a, 0 <= r0;
    lemma_floor_bounds(a * r0, s0);
    lemma_redeem_within_reserve(a, r0, s0);
    let p = redeem_quote(a, r0, s0);
    assert((s0 - a) * r0 <= s0 * (r0 - p)) by (nonlinear_arith)
        requires p * s0 <= a * r0;
}

/// The first lock into an empty pool mints exactly the amount locked.
pub proof fn lemma_bootstrap_lock(v: HouseboxView, amount: u64)
    requires
        v.wf(),
        v.state.solsum == 0,
        v.state.vsum == 0,
        !v.state.paused,
        amount > 0,
    ensures
        lock_step(v, amount).0 == Ok::<LockReceipt, HouseboxError>(LockReceipt {
            minted: amount,
            lp_shares: lp_part(amount as int, v.state.lp_percent as int) as u64,
            protocol_shares: (amount - lp_part(amount as int, v.state.lp_percent as int)) as u64,
        }),
        lock_step(v, amount).1.state.solsum == amount,
        lock_step(v, amount).1.state.vsum == amount,
{
}

/// In a pool holding reserve `R` and shares `S`, a rate-aware lock of
/// `amount` mints `amount * S / R` shares, of which the LP gets
/// `minted * lp_percent / 100` and the protocol the rest.
pub proof fn lemma_steady_lock(v: HouseboxView, amount: u64)
    requires
        v.wf(),
        v.state.mint_policy == MintPolicy::RateAware,
        !v.state.paused,
        amount > 0,
        v.state.solsum > 0,
        v.state.solsum + amount <= u64::MAX,
        v.state.vsum + mint_quote(amount as int, v.state.solsum as int, v.state.vsum as int) <= u64::MAX,
    ensures
        ({
            let m = mint_quote(amount as int, v.state.solsum as int, v.state.vsum as int);
            let lp = lp_part(m, v.state.lp_percent as int);
            &&& m == 0 ==> lock_step(v, amount).0 == Err::<LockReceipt, HouseboxError>(HouseboxError::AmountTooSmall)
            &&& m > 0 ==> lock_step(v, amount).0 == Ok::<LockReceipt, HouseboxError>(LockReceipt {
                minted: m as u64,
                lp_shares: lp as u64,
                protocol_shares: (m - lp) as u64,
            })
            &&& m > 0 ==> lock_step(v, amount).1.state.solsum == v.state.solsum + amount
            &&& m > 0 ==> lock_step(v, amount).1.state.vsum == v.state.vsum + m
        }),
{
}

/// A win larger than the pool's reserve is refused as insolvency, not
/// carried into a negative reserve; the ledger stays as it was.
pub proof fn lemma_win_beyond_reserve_is_insolvent(
    v: HouseboxView,
    caller: Address,
    player: Address,
    pnl: i64,
    session_id: SessionId,
    now: i64,
)
    requires
        v.wf(),
        v.escrows.contains_key(player),
        !v.sessions.contains_key(session_id),
        !v.state.paused,
        caller == v.state.server_pubkey,
        pnl > 0,
        v.state.solsum < pnl,
    ensures
        settle_step(v, caller, player, pnl, session_id, now) == (Err::<(), HouseboxError>(HouseboxError::HouseInsolvent), v),
{
}

/// A redemption that ran is closed: running it again fails, whoever calls
/// and whenever.
pub proof fn lemma_redemption_runs_once(
    v: HouseboxView,
    caller: Address,
    lp: Address,
    now: i64,
    lp_vtoken_balance: u64,
    caller2: Address,
    now2: i64,
    lp_vtoken_balance2: u64,
)
    requires
        v.wf(),
        execute_step(v, caller, lp, now, lp_vtoken_balance).0 is Ok,
    ensures
        execute_step(execute_step(v, caller, lp, now, lp_vtoken_balance).1, caller2, lp, now2, lp_vtoken_balance2).0
            == Err::<RedemptionTransfer, HouseboxError>(HouseboxError::RedemptionNotFound),
{
}

/// A deferred redemption runs only inside its window, from maturity to
/// expiry: before it, it is not ready; after it, it has expired; and it
/// cannot be closed as expired until the window has passed.
pub proof fn lemma_deferred_window(v: HouseboxView, caller: Address, lp: Address, now: i64, lp_vtoken_balance: u64)
    requires
        v.wf(),
        v.state.redemption_policy == RedemptionPolicy::DeferredRatio,
        v.redemptions.contains_key(lp),
    ensures
        caller == lp && now < matures_at(v.redemptions[lp]) ==> execute_step(v, caller, lp, now, lp_vtoken_balance).0
            == Err::<RedemptionTransfer, HouseboxError>(HouseboxError::RedemptionNotReady),
        caller == lp && now > expires_at(v.redemptions[lp]) ==> execute_step(v, caller, lp, now, lp_vtoken_balance).0
            == Err::<RedemptionTransfer, HouseboxError>(HouseboxError::RedemptionExpired),
        execute_step(v, caller, lp, now, lp_vtoken_balance).0 is Ok
            ==> matures_at(v.redemptions[lp]) <= now <= expires_at(v.redemptions[lp]),
        now <= expires_at(v.redemptions[lp]) ==> close_expired_step(v, lp, now).0
            == Err::<(), HouseboxError>(HouseboxError::RedemptionNotExpired),
        now > expires_at(v.redemptions[lp]) ==> close_expired_step(v, lp, now).0 is Ok,
{
}

/// A session settles once: after it has settled, settling it again fails
/// whatever the result reported, and for the same player it fails as a
/// replay.
pub proof fn lemma_session_settles_once(
    v: HouseboxView,
    caller: Address,
    player: Address,
    pnl: i64,
    session_id: SessionId,
    now: i64,
    caller2: Address,
    player2: Address,
    pnl2: i64,
    now2: i64,
)
    requires
        v.wf(),
        settle_step(v, caller, player, pnl, session_id, now).0 is Ok,
    ensures
        settle_step(settle_step(v, caller, player, pnl, session_id, now).1, caller2, player2, pnl2, session_id, now2).0 is Err,
        settle_step(settle_step(v, caller, player, pnl, session_id, now).1, caller2, player, pnl2, session_id, now2).0
            == Err::<(), HouseboxError>(HouseboxError::SessionAlreadySettled),
{
}

} // verus!
