//! The house's operations. Each one is specified by a step function over
//! the ledger's model: the result it returns and the ledger it leaves. A
//! failed operation leaves the ledger as it was.

use vstd::prelude::*;
use crate::keys::{keys_equal, Address, SessionId};
use crate::shares::{
    lemma_redeem_within_reserve, lp_part, mint_quote, payout_for, redeem_quote, shares_to_mint, split_minted,
};
use crate::state::{
    records_finite, records_keyed, Capability, Housebox, HouseboxError, HouseboxState, HouseboxView, MintPolicy, PlayerEscrow,
    RedemptionPolicy, RedemptionRequest, SettledSession, REDEMPTION_DELAY_SECONDS, REDEMPTION_EXPIRY_SECONDS,
    SETTLEMENT_MIN_AGE_SECONDS,
};
use crate::store::Store;

verus! {

/// Shares minted by a lock, and whom they go to.
#[derive(Clone, Copy, Debug, PartialEq, Eq, Structural)]
pub struct LockReceipt {
    pub minted: u64,
    /// Minted to the LP's share account.
    pub lp_shares: u64,
    /// Minted to the protocol's share account.
    pub protocol_shares: u64,
}

/// Shares the host burns from the LP and base asset it pays out of the
/// vault to the LP.
#[derive(Clone, Copy, Debug, PartialEq, Eq, Structural)]
pub struct RedemptionTransfer {
    pub shares_burned: u64,
    pub lamports_paid: u64,
}

proof fn lemma_view_records(h: &Housebox)
    requires
        h.escrows.wf(),
        h.redemptions.wf(),
        h.sessions.wf(),
    ensures
        records_keyed(h@),
        records_finite(h@),
{
    h.escrows.lemma_finite();
    h.redemptions.lemma_finite();
    h.sessions.lemma_finite();
    h.escrows.lemma_filed_under_key();
    h.redemptions.lemma_filed_under_key();
    h.sessions.lemma_filed_under_key();
}

// ---------------------------------------------------------------- set-up

pub open spec fn initialize_step(
    authority: Address,
    server_pubkey: Address,
    lp_percent: u8,
    vtoken_mint: Address,
    mint_policy: MintPolicy,
    redemption_policy: RedemptionPolicy,
) -> Result<HouseboxView, HouseboxError> {
    if lp_percent == 0 || lp_percent > 100 {
        Err(HouseboxError::InvalidLpPercent)
    } else {
        Ok(HouseboxView {
            state: HouseboxState {
                authority,
                server_pubkey,
                pause_authority: authority,
                vtoken_mint,
                protocol_vtoken_account: None,
                lp_percent,
                paused: false,
                solsum: 0,
                vsum: 0,
                mint_policy,
                redemption_policy,
            },
            escrows: Map::empty(),
            redemptions: Map::empty(),
            sessions: Map::empty(),
        })
    }
}

/// Creates the ledger, with `authority` as both configuration and pause
/// authority and an empty pool.
pub fn initialize(
    authority: Address,
    server_pubkey: Address,
    lp_percent: u8,
    vtoken_mint: Address,
    mint_policy: MintPolicy,
    redemption_policy: RedemptionPolicy,
) -> (r: Result<Housebox, HouseboxError>)
    ensures
        r matches Ok(h) ==> h.wf(),
        initialize_step(authority, server_pubkey, lp_percent, vtoken_mint, mint_policy, redemption_policy) == (match r {
            Ok(h) => Ok::<HouseboxView, HouseboxError>(h@),
            Err(e) => Err(e),
        }),
{
    if lp_percent == 0 || lp_percent > 100 {
        return Err(HouseboxError::InvalidLpPercent);
    }
    let h = Housebox {
        state: HouseboxState {
            authority,
            server_pubkey,
            pause_authority: authority,
            vtoken_mint,
            protocol_vtoken_account: None,
            lp_percent,
            paused: false,
            solsum: 0,
            vsum: 0,
            mint_policy,
            redemption_policy,
        },
        escrows: Store::new(),
        redemptions: Store::new(),
        sessions: Store::new(),
    };
    proof { lemma_view_records(&h); }
    Ok(h)
}

pub open spec fn initialize_vault_step(v: HouseboxView, caller: Address, protocol_vtoken_account: Address)
    -> (Result<(), HouseboxError>, HouseboxView)
{
    if caller != v.state.authority {
        (Err(HouseboxError::Unauthorized), v)
    } else if v.state.protocol_vtoken_account is Some {
        (Err(HouseboxError::AlreadyInitialized), v)
    } else {
        (Ok(()), HouseboxView {
            state: HouseboxState { protocol_vtoken_account: Some(protocol_vtoken_account), ..v.state },
            ..v
        })
    }
}

/// Records the protocol's share account, once, on the authority's word.
pub fn initialize_vault(h: &mut Housebox, caller: Address, protocol_vtoken_account: Address)
    -> (r: Result<(), HouseboxError>)
    requires
        old(h).wf(),
    ensures
        final(h).wf(),
        (r, final(h)@) == initialize_vault_step(old(h)@, caller, protocol_vtoken_account),
{
    if !h.state.grants(&caller, Capability::Authority) {
        return Err(HouseboxError::Unauthorized);
    }
    if h.state.protocol_vtoken_account.is_some() {
        return Err(HouseboxError::AlreadyInitialized);
    }
    h.state.protocol_vtoken_account = Some(protocol_vtoken_account);
    proof { lemma_view_records(h); }
    Ok(())
}

// ---------------------------------------------------------------- lock

/// Shares a lock of `amount` mints under the pool's policy; `None` where the
/// pool has shares but no reserve to price them against.
pub open spec fn minted_for(s: HouseboxState, amount: u64) -> Option<int> {
    match s.mint_policy {
        MintPolicy::OneToOne => Some(amount as int),
        MintPolicy::RateAware => if s.solsum == 0 && s.vsum == 0 {
            Some(amount as int)
        } else if s.solsum == 0 {
            None
        } else {
            Some(mint_quote(amount as int, s.solsum as int, s.vsum as int))
        },
    }
}

pub open spec fn lock_step(v: HouseboxView, amount: u64) -> (Result<LockReceipt, HouseboxError>, HouseboxView) {
    let s = v.state;
    if s.paused {
        (Err(HouseboxError::ProtocolPaused), v)
    } else if amount == 0 {
        (Err(HouseboxError::ZeroAmount), v)
    } else {
        match minted_for(s, amount) {
            None => (Err(HouseboxError::MathOverflow), v),
            Some(m) => if m > u64::MAX {
                (Err(HouseboxError::MathOverflow), v)
            } else if m == 0 {
                (Err(HouseboxError::AmountTooSmall), v)
            } else if s.solsum + amount > u64::MAX || s.vsum + m > u64::MAX {
                (Err(HouseboxError::MathOverflow), v)
            } else {
                let lp = lp_part(m, s.lp_percent as int);
                (
                    Ok(LockReceipt { minted: m as u64, lp_shares: lp as u64, protocol_shares: (m - lp) as u64 }),
                    HouseboxView {
                        state: HouseboxState { solsum: (s.solsum + amount) as u64, vsum: (s.vsum + m) as u64, ..s },
                        ..v
                    },
                )
            },
        }
    }
}

/// An LP locks `amount_lamports` in the pool and receives shares: the
/// host moves the amount into the vault and mints the receipt's shares.
pub fn lp_lock(h: &mut Housebox, amount_lamports: u64) -> (r: Result<LockReceipt, HouseboxError>)
    requires
        old(h).wf(),
    ensures
        final(h).wf(),
        (r, final(h)@) == lock_step(old(h)@, amount_lamports),
{
    if h.state.paused {
        return Err(HouseboxError::ProtocolPaused);
    }
    if amount_lamports == 0 {
        return Err(HouseboxError::ZeroAmount);
    }
    let minted = match h.state.mint_policy {
        MintPolicy::RateAware => match shares_to_mint(amount_lamports, h.state.solsum, h.state.vsum) {
            Ok(m) => m,
            Err(e) => return Err(e),
        },
        MintPolicy::OneToOne => amount_lamports,
    };
    if minted == 0 {
        return Err(HouseboxError::AmountTooSmall);
    }
    let solsum = match h.state.solsum.checked_add(amount_lamports) {
        Some(x) => x,
        None => return Err(HouseboxError::MathOverflow),
    };
    let vsum = match h.state.vsum.checked_add(minted) {
        Some(x) => x,
        None => return Err(HouseboxError::MathOverflow),
    };
    let (lp_shares, protocol_shares) = split_minted(minted, h.state.lp_percent);
    h.state.solsum = solsum;
    h.state.vsum = vsum;
    Ok(LockReceipt { minted, lp_shares, protocol_shares })
}

// ---------------------------------------------------------------- redemption

/// The first moment at which a request may be executed.
pub open spec fn matures_at(req: RedemptionRequest) -> int {
    req.requested_at + REDEMPTION_DELAY_SECONDS
}

/// The last moment at which a deferred request may be executed.
pub open spec fn expires_at(req: RedemptionRequest) -> int {
    req.requested_at + REDEMPTION_DELAY_SECONDS + REDEMPTION_EXPIRY_SECONDS
}

pub open spec fn request_step(v: HouseboxView, lp: Address, vtoken_amount: u64, now: i64, lp_vtoken_balance: u64)
    -> (Result<RedemptionTransfer, HouseboxError>, HouseboxView)
{
    let s = v.state;
    if v.redemptions.contains_key(lp) {
        (Err(HouseboxError::RedemptionPending), v)
    } else if s.paused {
        (Err(HouseboxError::ProtocolPaused), v)
    } else if vtoken_amount == 0 {
        (Err(HouseboxError::ZeroAmount), v)
    } else if s.vsum == 0 {
        (Err(HouseboxError::NoLiquidity), v)
    } else {
        match s.redemption_policy {
            RedemptionPolicy::DeferredRatio => (
                Ok(RedemptionTransfer { shares_burned: 0, lamports_paid: 0 }),
                HouseboxView {
                    redemptions: v.redemptions.insert(
                        lp,
                        RedemptionRequest { lp, vtoken_amount, sol_amount: 0, requested_at: now },
                    ),
                    ..v
                },
            ),
            RedemptionPolicy::FixedAtRequest => {
                let payout = redeem_quote(vtoken_amount as int, s.solsum as int, s.vsum as int);
                if lp_vtoken_balance < vtoken_amount {
                    (Err(HouseboxError::InsufficientVtokens), v)
                } else if vtoken_amount > s.vsum {
                    (Err(HouseboxError::MathOverflow), v)
                } else if payout == 0 {
                    (Err(HouseboxError::AmountTooSmall), v)
                } else {
                    (
                        Ok(RedemptionTransfer { shares_burned: vtoken_amount, lamports_paid: 0 }),
                        HouseboxView {
                            state: HouseboxState {
                                solsum: (s.solsum - payout) as u64,
                                vsum: (s.vsum - vtoken_amount) as u64,
                                ..s
                            },
                            redemptions: v.redemptions.insert(
                                lp,
                                RedemptionRequest { lp, vtoken_amount, sol_amount: payout as u64, requested_at: now },
                            ),
                            ..v
                        },
                    )
                }
            },
        }
    }
}

/// An LP asks to redeem `vtoken_amount` shares at time `now`, holding
/// `lp_vtoken_balance` shares. Under a deferred policy this records intent
/// only; under a fixed one it burns the shares and fixes the payout now.
pub fn request_redemption(
    h: &mut Housebox,
    lp: Address,
    vtoken_amount: u64,
    now: i64,
    lp_vtoken_balance: u64,
) -> (r: Result<RedemptionTransfer, HouseboxError>)
    requires
        old(h).wf(),
    ensures
        final(h).wf(),
        (r, final(h)@) == request_step(old(h)@, lp, vtoken_amount, now, lp_vtoken_balance),
{
    if h.redemptions.contains(&lp) {
        return Err(HouseboxError::RedemptionPending);
    }
    if h.state.paused {
        return Err(HouseboxError::ProtocolPaused);
    }
    if vtoken_amount == 0 {
        return Err(HouseboxError::ZeroAmount);
    }
    if h.state.vsum == 0 {
        return Err(HouseboxError::NoLiquidity);
    }
    match h.state.redemption_policy {
        RedemptionPolicy::DeferredRatio => {
            h.redemptions.insert(RedemptionRequest { lp, vtoken_amount, sol_amount: 0, requested_at: now });
            proof { lemma_view_records(h); }
            Ok(RedemptionTransfer { shares_burned: 0, lamports_paid: 0 })
        },
        RedemptionPolicy::FixedAtRequest => {
            if lp_vtoken_balance < vtoken_amount {
                return Err(HouseboxError::InsufficientVtokens);
            }
            if vtoken_amount > h.state.vsum {
                return Err(HouseboxError::MathOverflow);
            }
            proof {
                lemma_redeem_within_reserve(vtoken_amount as int, h.state.solsum as int, h.state.vsum as int);
            }
            let payout = match payout_for(vtoken_amount, h.state.solsum, h.state.vsum) {
                Ok(p) => p,
                Err(e) => return Err(e),
            };
            if payout == 0 {
                return Err(HouseboxError::AmountTooSmall);
            }
            h.state.solsum = h.state.solsum - payout;
            h.state.vsum = h.state.vsum - vtoken_amount;
            h.redemptions.insert(RedemptionRequest { lp, vtoken_amount, sol_amount: payout, requested_at: now });
            proof { lemma_view_records(h); }
            Ok(RedemptionTransfer { shares_burned: vtoken_amount, lamports_paid: 0 })
        },
    }
}

pub open spec fn execute_step(v: HouseboxView, caller: Address, lp: Address, now: i64, lp_vtoken_balance: u64)
    -> (Result<RedemptionTransfer, HouseboxError>, HouseboxView)
{
    let s = v.state;
    if !v.redemptions.contains_key(lp) {
        (Err(HouseboxError::RedemptionNotFound), v)
    } else {
        let req = v.redemptions[lp];
        let closed = HouseboxView { redemptions: v.redemptions.remove(lp), ..v };
        match s.redemption_policy {
            RedemptionPolicy::DeferredRatio => {
                let payout = redeem_quote(req.vtoken_amount as int, s.solsum as int, s.vsum as int);
                if caller != lp {
                    (Err(HouseboxError::Unauthorized), v)
                } else if now < matures_at(req) {
                    (Err(HouseboxError::RedemptionNotReady), v)
                } else if now > expires_at(req) {
                    (Err(HouseboxError::RedemptionExpired), v)
                } else if lp_vtoken_balance < req.vtoken_amount {
                    (Err(HouseboxError::InsufficientVtokens), v)
                } else if s.vsum == 0 {
                    (Err(HouseboxError::NoLiquidity), v)
                } else if payout > u64::MAX {
                    (Err(HouseboxError::MathOverflow), v)
                } else if payout == 0 {
                    (Err(HouseboxError::AmountTooSmall), v)
                } else if req.vtoken_amount > s.vsum {
                    (Err(HouseboxError::MathOverflow), v)
                } else {
                    (
                        Ok(RedemptionTransfer { shares_burned: req.vtoken_amount, lamports_paid: payout as u64 }),
                        HouseboxView {
                            state: HouseboxState {
                                solsum: (s.solsum - payout) as u64,
                                vsum: (s.vsum - req.vtoken_amount) as u64,
                                ..s
                            },
                            ..closed
                        },
                    )
                }
            },
            RedemptionPolicy::FixedAtRequest => {
                if now < matures_at(req) {
                    (Err(HouseboxError::RedemptionNotReady), v)
                } else {
                    (Ok(RedemptionTransfer { shares_burned: 0, lamports_paid: req.sol_amount }), closed)
                }
            },
        }
    }
}

/// Runs `lp`'s pending redemption at time `now` and closes it. A deferred
/// request runs only on the LP's own call, inside its window, and prices
/// the shares at this moment's ratio; a fixed one pays what was fixed, on
/// anyone's call once it has matured.
pub fn execute_redemption(h: &mut Housebox, caller: Address, lp: Address, now: i64, lp_vtoken_balance: u64)
    -> (r: Result<RedemptionTransfer, HouseboxError>)
    requires
        old(h).wf(),
    ensures
        final(h).wf(),
        (r, final(h)@) == execute_step(old(h)@, caller, lp, now, lp_vtoken_balance),
{
    let req = match h.redemptions.get(&lp) {
        Some(q) => *q,
        None => return Err(HouseboxError::RedemptionNotFound),
    };
    let t = req.requested_at as i128;
    let matured = now as i128 >= t + REDEMPTION_DELAY_SECONDS as i128;
    match h.state.redemption_policy {
        RedemptionPolicy::DeferredRatio => {
            if !keys_equal(&caller, &lp) {
                return Err(HouseboxError::Unauthorized);
            }
            if !matured {
                return Err(HouseboxError::RedemptionNotReady);
            }
            if now as i128 > t + REDEMPTION_DELAY_SECONDS as i128 + REDEMPTION_EXPIRY_SECONDS as i128 {
                return Err(HouseboxError::RedemptionExpired);
            }
            if lp_vtoken_balance < req.vtoken_amount {
                return Err(HouseboxError::InsufficientVtokens);
            }
            if h.state.vsum == 0 {
                return Err(HouseboxError::NoLiquidity);
            }
            let payout = match payout_for(req.vtoken_amount, h.state.solsum, h.state.vsum) {
                Ok(p) => p,
                Err(e) => return Err(e),
            };
            if payout == 0 {
                return Err(HouseboxError::AmountTooSmall);
            }
            if req.vtoken_amount > h.state.vsum {
                return Err(HouseboxError::MathOverflow);
            }
            proof {
                lemma_redeem_within_reserve(req.vtoken_amount as int, h.state.solsum as int, h.state.vsum as int);
            }
            h.state.vsum = h.state.vsum - req.vtoken_amount;
            h.state.solsum = h.state.solsum - payout;
            h.redemptions.remove(&lp);
            proof { lemma_view_records(h); }
            Ok(RedemptionTransfer { shares_burned: req.vtoken_amount, lamports_paid: payout })
        },
        RedemptionPolicy::FixedAtRequest => {
            if !matured {
                return Err(HouseboxError::RedemptionNotReady);
            }
            h.redemptions.remove(&lp);
            proof { lemma_view_records(h); }
            Ok(RedemptionTransfer { shares_burned: 0, lamports_paid: req.sol_amount })
        },
    }
}

pub open spec fn close_expired_step(v: HouseboxView, lp: Address, now: i64) -> (Result<(), HouseboxError>, HouseboxView) {
    if !v.redemptions.contains_key(lp) {
        (Err(HouseboxError::RedemptionNotFound), v)
    } else if v.state.redemption_policy != RedemptionPolicy::DeferredRatio || now <= expires_at(v.redemptions[lp]) {
        (Err(HouseboxError::RedemptionNotExpired), v)
    } else {
        (Ok(()), HouseboxView { redemptions: v.redemptions.remove(lp), ..v })
    }
}

/// Closes `lp`'s deferred request once its window has passed; anyone may
/// call. Nothing is paid: the host returns the record's storage to the LP.
/// A request whose payout was fixed never expires.
pub fn close_expired_redemption(h: &mut Housebox, lp: Address, now: i64) -> (r: Result<(), HouseboxError>)
    requires
        old(h).wf(),
    ensures
        final(h).wf(),
        (r, final(h)@) == close_expired_step(old(h)@, lp, now),
{
    let req = match h.redemptions.get(&lp) {
        Some(q) => *q,
        None => return Err(HouseboxError::RedemptionNotFound),
    };
    let deferred = match h.state.redemption_policy {
        RedemptionPolicy::DeferredRatio => true,
        RedemptionPolicy::FixedAtRequest => false,
    };
    let end = req.requested_at as i128 + REDEMPTION_DELAY_SECONDS as i128 + REDEMPTION_EXPIRY_SECONDS as i128;
    if !deferred || now as i128 <= end {
        return Err(HouseboxError::RedemptionNotExpired);
    }
    h.redemptions.remove(&lp);
    proof { lemma_view_records(h); }
    Ok(())
}

// ---------------------------------------------------------------- escrow

/// The escrow a deposit by `player` adds to: the one on record, else a new
/// one locked to the player.
pub open spec fn escrow_or_new(v: HouseboxView, player: Address) -> PlayerEscrow {
    if v.escrows.contains_key(player) {
        v.escrows[player]
    } else {
        PlayerEscrow { player, balance: 0, verified_withdrawal_address: player }
    }
}

pub open spec fn deposit_step(v: HouseboxView, player: Address, amount: u64) -> (Result<(), HouseboxError>, HouseboxView) {
    let prior = escrow_or_new(v, player);
    if v.state.paused {
        (Err(HouseboxError::ProtocolPaused), v)
    } else if amount == 0 {
        (Err(HouseboxError::ZeroAmount), v)
    } else if prior.balance + amount > u64::MAX {
        (Err(HouseboxError::MathOverflow), v)
    } else {
        (
            Ok(()),
            HouseboxView {
                escrows: v.escrows.insert(player, PlayerEscrow { balance: (prior.balance + amount) as u64, ..prior }),
                ..v
            },
        )
    }
}

/// A player puts `amount_lamports` into escrow: the host moves it into the
/// vault. The first deposit opens the escrow and locks its withdrawal
/// address to the player. The pool's totals do not change.
pub fn player_deposit(h: &mut Housebox, player: Address, amount_lamports: u64) -> (r: Result<(), HouseboxError>)
    requires
        old(h).wf(),
    ensures
        final(h).wf(),
        (r, final(h)@) == deposit_step(old(h)@, player, amount_lamports),
{
    if h.state.paused {
        return Err(HouseboxError::ProtocolPaused);
    }
    if amount_lamports == 0 {
        return Err(HouseboxError::ZeroAmount);
    }
    let prior = match h.escrows.get(&player) {
        Some(e) => *e,
        None => PlayerEscrow { player, balance: 0, verified_withdrawal_address: player },
    };
    let balance = match prior.balance.checked_add(amount_lamports) {
        Some(b) => b,
        None => return Err(HouseboxError::MathOverflow),
    };
    h.escrows.insert(PlayerEscrow { balance, ..prior });
    proof { lemma_view_records(h); }
    Ok(())
}

pub open spec fn settle_step(v: HouseboxView, caller: Address, player: Address, pnl: i64, session_id: SessionId, now: i64)
    -> (Result<(), HouseboxError>, HouseboxView)
{
    let s = v.state;
    if !v.escrows.contains_key(player) {
        (Err(HouseboxError::EscrowNotFound), v)
    } else if v.sessions.contains_key(session_id) {
        (Err(HouseboxError::SessionAlreadySettled), v)
    } else if s.paused {
        (Err(HouseboxError::ProtocolPaused), v)
    } else if caller != s.server_pubkey {
        (Err(HouseboxError::InvalidServerSignature), v)
    } else {
        let e = v.escrows[player];
        let marked = v.sessions.insert(session_id, SettledSession { session_id, player, settled_at: now });
        if pnl < 0 {
            let loss = -pnl;
            if e.balance < loss {
                (Err(HouseboxError::InsufficientEscrow), v)
            } else if s.solsum + loss > u64::MAX {
                (Err(HouseboxError::MathOverflow), v)
            } else {
                (
                    Ok(()),
                    HouseboxView {
                        state: HouseboxState { solsum: (s.solsum + loss) as u64, ..s },
                        escrows: v.escrows.insert(player, PlayerEscrow { balance: (e.balance - loss) as u64, ..e }),
                        sessions: marked,
                        ..v
                    },
                )
            }
        } else if pnl > 0 {
            if s.solsum < pnl {
                (Err(HouseboxError::HouseInsolvent), v)
            } else if e.balance + pnl > u64::MAX {
                (Err(HouseboxError::MathOverflow), v)
            } else {
                (
                    Ok(()),
                    HouseboxView {
                        state: HouseboxState { solsum: (s.solsum - pnl) as u64, ..s },
                        escrows: v.escrows.insert(player, PlayerEscrow { balance: (e.balance + pnl) as u64, ..e }),
                        sessions: marked,
                        ..v
                    },
                )
            }
        } else {
            (Ok(()), HouseboxView { sessions: marked, ..v })
        }
    }
}

/// The settler reports `player`'s net result `pnl` for session
/// `session_id`, at time `now`. A loss moves from the escrow into the pool;
/// a win moves from the pool into the escrow, if the pool can cover it.
/// Each session settles once. No asset leaves the vault.
pub fn player_settle(h: &mut Housebox, caller: Address, player: Address, pnl: i64, session_id: SessionId, now: i64)
    -> (r: Result<(), HouseboxError>)
    requires
        old(h).wf(),
    ensures
        final(h).wf(),
        (r, final(h)@) == settle_step(old(h)@, caller, player, pnl, session_id, now),
{
    let e = match h.escrows.get(&player) {
        Some(e) => *e,
        None => return Err(HouseboxError::EscrowNotFound),
    };
    if h.sessions.contains(&session_id) {
        return Err(HouseboxError::SessionAlreadySettled);
    }
    if h.state.paused {
        return Err(HouseboxError::ProtocolPaused);
    }
    if !h.state.grants(&caller, Capability::TrustedSettler) {
        return Err(HouseboxError::InvalidServerSignature);
    }
    if pnl < 0 {
        let loss = (-(pnl as i128)) as u64;
        if e.balance < loss {
            return Err(HouseboxError::InsufficientEscrow);
        }
        let solsum = match h.state.solsum.checked_add(loss) {
            Some(x) => x,
            None => return Err(HouseboxError::MathOverflow),
        };
        h.state.solsum = solsum;
        h.escrows.insert(PlayerEscrow { balance: e.balance - loss, ..e });
    } else if pnl > 0 {
        let win = pnl as u64;
        if h.state.solsum < win {
            return Err(HouseboxError::HouseInsolvent);
        }
        let balance = match e.balance.checked_add(win) {
            Some(b) => b,
            None => return Err(HouseboxError::MathOverflow),
        };
        h.state.solsum = h.state.solsum - win;
        h.escrows.insert(PlayerEscrow { balance, ..e });
    }
    h.sessions.insert(SettledSession { session_id, player, settled_at: now });
    proof { lemma_view_records(h); }
    Ok(())
}

pub open spec fn withdraw_step(v: HouseboxView, caller: Address, player: Address, destination: Address, amount: u64)
    -> (Result<(), HouseboxError>, HouseboxView)
{
    if !v.escrows.contains_key(player) {
        (Err(HouseboxError::EscrowNotFound), v)
    } else if caller != v.state.server_pubkey {
        (Err(HouseboxError::InvalidServerSignature), v)
    } else if amount == 0 {
        (Err(HouseboxError::ZeroAmount), v)
    } else if v.escrows[player].balance < amount {
        (Err(HouseboxError::InsufficientEscrow), v)
    } else if v.escrows[player].verified_withdrawal_address != destination {
        (Err(HouseboxError::WithdrawalAddressMismatch), v)
    } else {
        let e = v.escrows[player];
        (
            Ok(()),
            HouseboxView {
                escrows: v.escrows.insert(player, PlayerEscrow { balance: (e.balance - amount) as u64, ..e }),
                ..v
            },
        )
    }
}

/// Pays `amount_lamports` of `player`'s escrow to `destination` on the
/// settler's authority: the host moves it out of the vault. Allowed while
/// paused; only to the escrow's verified withdrawal address.
pub fn player_withdraw(h: &mut Housebox, caller: Address, player: Address, destination: Address, amount_lamports: u64)
    -> (r: Result<(), HouseboxError>)
    requires
        old(h).wf(),
    ensures
        final(h).wf(),
        (r, final(h)@) == withdraw_step(old(h)@, caller, player, destination, amount_lamports),
{
    let e = match h.escrows.get(&player) {
        Some(e) => *e,
        None => return Err(HouseboxError::EscrowNotFound),
    };
    if !h.state.grants(&caller, Capability::TrustedSettler) {
        return Err(HouseboxError::InvalidServerSignature);
    }
    if amount_lamports == 0 {
        return Err(HouseboxError::ZeroAmount);
    }
    if e.balance < amount_lamports {
        return Err(HouseboxError::InsufficientEscrow);
    }
    if !keys_equal(&e.verified_withdrawal_address, &destination) {
        return Err(HouseboxError::WithdrawalAddressMismatch);
    }
    h.escrows.insert(PlayerEscrow { balance: e.balance - amount_lamports, ..e });
    proof { lemma_view_records(h); }
    Ok(())
}

// ---------------------------------------------------------------- admin

pub open spec fn set_paused_step(v: HouseboxView, caller: Address, paused: bool) -> (Result<(), HouseboxError>, HouseboxView) {
    if caller != v.state.pause_authority {
        (Err(HouseboxError::Unauthorized), v)
    } else {
        (Ok(()), HouseboxView { state: HouseboxState { paused, ..v.state }, ..v })
    }
}

/// Stops deposits, locks, settlements and redemption requests; only the
/// pause authority may.
pub fn pause(h: &mut Housebox, caller: Address) -> (r: Result<(), HouseboxError>)
    requires
        old(h).wf(),
    ensures
        final(h).wf(),
        (r, final(h)@) == set_paused_step(old(h)@, caller, true),
{
    if !h.state.grants(&caller, Capability::PauseAuthority) {
        return Err(HouseboxError::Unauthorized);
    }
    h.state.paused = true;
    proof { lemma_view_records(h); }
    Ok(())
}

/// Lifts a pause; only the pause authority may.
pub fn unpause(h: &mut Housebox, caller: Address) -> (r: Result<(), HouseboxError>)
    requires
        old(h).wf(),
    ensures
        final(h).wf(),
        (r, final(h)@) == set_paused_step(old(h)@, caller, false),
{
    if !h.state.grants(&caller, Capability::PauseAuthority) {
        return Err(HouseboxError::Unauthorized);
    }
    h.state.paused = false;
    proof { lemma_view_records(h); }
    Ok(())
}

pub open spec fn update_server_step(v: HouseboxView, caller: Address, new_server_pubkey: Address)
    -> (Result<(), HouseboxError>, HouseboxView)
{
    if caller != v.state.authority {
        (Err(HouseboxError::Unauthorized), v)
    } else {
        (Ok(()), HouseboxView { state: HouseboxState { server_pubkey: new_server_pubkey, ..v.state }, ..v })
    }
}

/// Replaces the settler's identity; only the authority may.
pub fn update_server_pubkey(h: &mut Housebox, caller: Address, new_server_pubkey: Address) -> (r: Result<(), HouseboxError>)
    requires
        old(h).wf(),
    ensures
        final(h).wf(),
        (r, final(h)@) == update_server_step(old(h)@, caller, new_server_pubkey),
{
    if !h.state.grants(&caller, Capability::Authority) {
        return Err(HouseboxError::Unauthorized);
    }
    h.state.server_pubkey = new_server_pubkey;
    proof { lemma_view_records(h); }
    Ok(())
}

pub open spec fn close_session_step(v: HouseboxView, caller: Address, session_id: SessionId, now: i64)
    -> (Result<(), HouseboxError>, HouseboxView)
{
    if caller != v.state.server_pubkey {
        (Err(HouseboxError::Unauthorized), v)
    } else if !v.sessions.contains_key(session_id) {
        (Err(HouseboxError::SessionNotFound), v)
    } else if now - v.sessions[session_id].settled_at < SETTLEMENT_MIN_AGE_SECONDS {
        (Err(HouseboxError::SettlementTooRecent), v)
    } else {
        (Ok(()), HouseboxView { sessions: v.sessions.remove(session_id), ..v })
    }
}

/// Drops the settlement marker of `session_id` once it is an hour old; only
/// the settler may. Balances do not change.
pub fn close_settled_session(h: &mut Housebox, caller: Address, session_id: SessionId, now: i64)
    -> (r: Result<(), HouseboxError>)
    requires
        old(h).wf(),
    ensures
        final(h).wf(),
        (r, final(h)@) == close_session_step(old(h)@, caller, session_id, now),
{
    if !h.state.grants(&caller, Capability::TrustedSettler) {
        return Err(HouseboxError::Unauthorized);
    }
    let settled_at = match h.sessions.get(&session_id) {
        Some(m) => m.settled_at,
        None => return Err(HouseboxError::SessionNotFound),
    };
    if (now as i128) - (settled_at as i128) < SETTLEMENT_MIN_AGE_SECONDS as i128 {
        return Err(HouseboxError::SettlementTooRecent);
    }
    h.sessions.remove(&session_id);
    proof { lemma_view_records(h); }
    Ok(())
}

pub open spec fn withdraw_protocol_result(v: HouseboxView, caller: Address, amount: u64) -> Result<u64, HouseboxError> {
    if caller != v.state.authority {
        Err(HouseboxError::Unauthorized)
    } else if amount == 0 {
        Err(HouseboxError::ZeroAmount)
    } else {
        Ok(amount)
    }
}

/// Authorises moving `amount` of the protocol's own shares to another share
/// account; only the authority may. The host makes the transfer of the
/// amount returned; the ledger does not change.
pub fn withdraw_protocol_vtokens(h: &Housebox, caller: Address, amount: u64) -> (r: Result<u64, HouseboxError>)
    requires
        h.wf(),
    ensures
        r == withdraw_protocol_result(h@, caller, amount),
{
    if !h.state.grants(&caller, Capability::Authority) {
        return Err(HouseboxError::Unauthorized);
    }
    if amount == 0 {
        return Err(HouseboxError::ZeroAmount);
    }
    Ok(amount)
}

// ---------------------------------------------------------------- queries

impl Housebox {
    /// The escrow balance of `player`, if it has an escrow.
    pub fn escrow_balance(&self, player: &Address) -> (r: Option<u64>)
        requires
            self.wf(),
        ensures
            r == (if self@.escrows.contains_key(*player) {
                Some(self@.escrows[*player].balance)
            } else {
                None::<u64>
            }),
    {
        match self.escrows.get(player) {
            Some(e) => Some(e.balance),
            None => None,
        }
    }

    /// The pending redemption of `lp`, if any.
    pub fn pending_redemption(&self, lp: &Address) -> (r: Option<RedemptionRequest>)
        requires
            self.wf(),
        ensures
            r == (if self@.redemptions.contains_key(*lp) {
                Some(self@.redemptions[*lp])
            } else {
                None::<RedemptionRequest>
            }),
    {
        match self.redemptions.get(lp) {
            Some(q) => Some(*q),
            None => None,
        }
    }

    /// Whether `session_id` carries a settlement marker.
    pub fn is_settled(&self, session_id: &SessionId) -> (r: bool)
        requires
            self.wf(),
        ensures
            r == self@.sessions.contains_key(*session_id),
    {
        self.sessions.contains(session_id)
    }
}

} // verus!
