//! Share-pool arithmetic: how many shares a deposit mints, how they split
//! between the LP and the protocol, and what shares redeem for.

use vstd::prelude::*;
use crate::state::HouseboxError;

verus! {

/// Shares minted for `amount` at the pool's ratio of shares to reserve.
pub open spec fn mint_quote(amount: int, solsum: int, vsum: int) -> int {
    amount * vsum / solsum
}

/// Reserve paid for `shares` at the pool's ratio of reserve to shares.
pub open spec fn redeem_quote(shares: int, solsum: int, vsum: int) -> int {
    shares * solsum / vsum
}

/// The LP's part of `minted` shares at `lp_percent` percent.
pub open spec fn lp_part(minted: int, lp_percent: int) -> int {
    minted * lp_percent / 100
}

/// Rounding down loses less than one divisor: `(x / d) * d <= x < (x / d + 1) * d`.
pub proof fn lemma_floor_bounds(x: int, d: int)
    requires
        0 <= x,
        0 < d,
    ensures
        (x / d) * d <= x < (x / d + 1) * d,
{
    vstd::arithmetic::div_mod::lemma_fundamental_div_mod(x, d);
    vstd::arithmetic::div_mod::lemma_mod_pos_bound(x, d);
    assert((x / d) * d == d * (x / d)) by (nonlinear_arith);
    assert((x / d + 1) * d == d * (x / d) + d) by (nonlinear_arith);
}

/// Redeeming no more than the outstanding shares pays no more than the
/// reserve.
pub proof fn lemma_redeem_within_reserve(shares: int, solsum: int, vsum: int)
    requires
        0 <= shares <= vsum,
        0 <= solsum,
        0 < vsum,
    ensures
        0 <= redeem_quote(shares, solsum, vsum) <= solsum,
{
    assert(shares * solsum <= vsum * solsum) by (nonlinear_arith)
        requires shares <= vsum, 0 <= solsum;
    assert(0 <= shares * solsum) by (nonlinear_arith)
        requires 0 <= shares, 0 <= solsum;
    assert(shares * solsum / vsum <= (vsum * solsum) / vsum) by (nonlinear_arith)
        requires shares * solsum <= vsum * solsum, 0 < vsum;
    assert((vsum * solsum) / vsum == solsum) by (nonlinear_arith)
        requires 0 < vsum;
    assert(0 <= shares * solsum / vsum) by (nonlinear_arith)
        requires 0 <= shares * solsum, 0 < vsum;
}

/// Rate-aware minting: one share per unit into an empty pool, else
/// `amount * vsum / solsum`. A reserve that has run dry while shares remain
/// leaves no ratio, and the result too large for 64 bits is refused.
pub fn shares_to_mint(amount: u64, solsum: u64, vsum: u64) -> (r: Result<u64, HouseboxError>)
    ensures
        solsum == 0 && vsum == 0 ==> r == Ok::<u64, HouseboxError>(amount),
        solsum == 0 && vsum != 0 ==> r == Err::<u64, HouseboxError>(HouseboxError::MathOverflow),
        solsum != 0 ==> r == (if mint_quote(amount as int, solsum as int, vsum as int) > u64::MAX {
            Err::<u64, HouseboxError>(HouseboxError::MathOverflow)
        } else {
            Ok::<u64, HouseboxError>(mint_quote(amount as int, solsum as int, vsum as int) as u64)
        }),
{
    if solsum == 0 && vsum == 0 {
        return Ok(amount);
    }
    if solsum == 0 {
        return Err(HouseboxError::MathOverflow);
    }
    let a = amount as u128;
    let v = vsum as u128;
    assert(a * v <= u64::MAX as int * u64::MAX as int) by (nonlinear_arith)
        requires a <= u64::MAX, v <= u64::MAX;
    let q = (a * v) / (solsum as u128);
    if q > u64::MAX as u128 {
        Err(HouseboxError::MathOverflow)
    } else {
        Ok(q as u64)
    }
}

/// Reserve owed for `shares`, at `shares * solsum / vsum`.
pub fn payout_for(shares: u64, solsum: u64, vsum: u64) -> (r: Result<u64, HouseboxError>)
    requires
        vsum > 0,
    ensures
        r == (if redeem_quote(shares as int, solsum as int, vsum as int) > u64::MAX {
            Err::<u64, HouseboxError>(HouseboxError::MathOverflow)
        } else {
            Ok::<u64, HouseboxError>(redeem_quote(shares as int, solsum as int, vsum as int) as u64)
        }),
{
    let a = shares as u128;
    let s = solsum as u128;
    assert(a * s <= u64::MAX as int * u64::MAX as int) by (nonlinear_arith)
        requires a <= u64::MAX, s <= u64::MAX;
    let q = (a * s) / (vsum as u128);
    if q > u64::MAX as u128 {
        Err(HouseboxError::MathOverflow)
    } else {
        Ok(q as u64)
    }
}

/// Splits `minted` into the LP's `minted * lp_percent / 100` and the
/// protocol's remainder.
pub fn split_minted(minted: u64, lp_percent: u8) -> (r: (u64, u64))
    requires
        lp_percent <= 100,
    ensures
        r.0 == lp_part(minted as int, lp_percent as int),
        r.0 + r.1 == minted,
{
    let m = minted as u128;
    let p = lp_percent as u128;
    assert(m * p <= m * 100) by (nonlinear_arith)
        requires p <= 100;
    let lp = (m * p) / 100;
    assert(lp <= m);
    let lp = lp as u64;
    (lp, minted - lp)
}

} // verus!
