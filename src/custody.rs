//! What the house owes, and how operations change it. Every unit of the base
//! asset in the vault is owed to share holders (the reserve), to a player
//! (an escrow balance), or to an LP whose payout was fixed at request. Each
//! operation changes what is owed by exactly what it has the host move into
//! or out of the vault, so a vault that starts even with the ledger stays
//! even with it, and the reserve never exceeds the vault's holdings less
//! the escrows.

use vstd::prelude::*;
use vstd::set::fold::{is_fun_commutative, lemma_fold_empty, lemma_fold_insert};
use crate::housebox::{
    close_expired_step, close_session_step, deposit_step, execute_step, initialize_step, initialize_vault_step,
    lock_step, request_step, set_paused_step, settle_step, update_server_step, withdraw_step,
};
use crate::keys::{Address, SessionId};
use crate::shares::lemma_redeem_within_reserve;
use crate::state::{HouseboxView, MintPolicy, PlayerEscrow, RedemptionPolicy, RedemptionRequest};

verus! {

/// The sum of `amount` over the records of `m`.
pub open spec fn map_total<V>(m: Map<Address, V>, amount: spec_fn(V) -> int) -> int {
    m.dom().fold(0int, |acc: int, k: Address| acc + amount(m[k]))
}

pub open spec fn escrow_amount() -> spec_fn(PlayerEscrow) -> int {
    |e: PlayerEscrow| e.balance as int
}

pub open spec fn fixed_payout() -> spec_fn(RedemptionRequest) -> int {
    |q: RedemptionRequest| q.sol_amount as int
}

/// What the house owes out of its vault: the reserve, every escrow, and
/// every payout fixed but not yet paid.
pub open spec fn owed(v: HouseboxView) -> int {
    v.state.solsum + map_total(v.escrows, escrow_amount()) + map_total(v.redemptions, fixed_payout())
}

proof fn lemma_fold_agree(s: Set<Address>, f: spec_fn(int, Address) -> int, g: spec_fn(int, Address) -> int)
    requires
        s.finite(),
        is_fun_commutative(f),
        is_fun_commutative(g),
        forall|b: int, a: Address| s.contains(a) ==> #[trigger] f(b, a) == g(b, a),
    ensures
        s.fold(0int, f) == s.fold(0int, g),
    decreases s.len(),
{
    if s.len() == 0 {
        assert(s =~= Set::empty());
        lemma_fold_empty(0int, f);
        lemma_fold_empty(0int, g);
    } else {
        let a = s.choose();
        let r = s.remove(a);
        lemma_fold_agree(r, f, g);
        lemma_fold_insert(r, 0int, f, a);
        lemma_fold_insert(r, 0int, g, a);
        assert(r.insert(a) =~= s);
    }
}

proof fn lemma_adder_commutes<V>(m: Map<Address, V>, amount: spec_fn(V) -> int)
    ensures
        is_fun_commutative(|acc: int, k: Address| acc + amount(m[k])),
{
    let f = |acc: int, k: Address| acc + amount(m[k]);
    assert forall|a1: Address, a2: Address, b: int| #[trigger] f(f(b, a2), a1) == f(f(b, a1), a2) by {};
}

/// Filing `v` under `k` changes the total by the new amount less the old.
pub proof fn lemma_total_insert<V>(m: Map<Address, V>, k: Address, v: V, amount: spec_fn(V) -> int)
    requires
        m.dom().finite(),
    ensures
        map_total(m.insert(k, v), amount) == map_total(m, amount) - (if m.contains_key(k) {
            amount(m[k])
        } else {
            0
        }) + amount(v),
{
    let m2 = m.insert(k, v);
    let f = |acc: int, x: Address| acc + amount(m[x]);
    let g = |acc: int, x: Address| acc + amount(m2[x]);
    lemma_adder_commutes(m, amount);
    lemma_adder_commutes(m2, amount);
    let r = m.dom().remove(k);
    lemma_fold_agree(r, f, g);
    lemma_fold_insert(r, 0int, f, k);
    lemma_fold_insert(r, 0int, g, k);
    assert(r.insert(k) =~= m2.dom());
    if m.contains_key(k) {
        assert(r.insert(k) =~= m.dom());
    } else {
        assert(r =~= m.dom());
    }
}

/// Taking out the record under `k` lowers the total by its amount.
pub proof fn lemma_total_remove<V>(m: Map<Address, V>, k: Address, amount: spec_fn(V) -> int)
    requires
        m.dom().finite(),
    ensures
        map_total(m.remove(k), amount) == map_total(m, amount) - (if m.contains_key(k) {
            amount(m[k])
        } else {
            0
        }),
{
    let m2 = m.remove(k);
    let f = |acc: int, x: Address| acc + amount(m[x]);
    let g = |acc: int, x: Address| acc + amount(m2[x]);
    lemma_adder_commutes(m, amount);
    lemma_adder_commutes(m2, amount);
    let r = m.dom().remove(k);
    assert(m2.dom() =~= r);
    lemma_fold_agree(r, f, g);
    if m.contains_key(k) {
        lemma_fold_insert(r, 0int, f, k);
        assert(r.insert(k) =~= m.dom());
    } else {
        assert(r =~= m.dom());
    }
}

/// A sum of non-negative amounts is non-negative.
pub proof fn lemma_total_nonneg<V>(m: Map<Address, V>, amount: spec_fn(V) -> int)
    requires
        m.dom().finite(),
        forall|v: V| #[trigger] amount(v) >= 0,
    ensures
        map_total(m, amount) >= 0,
    decreases m.dom().len(),
{
    if m.dom().len() == 0 {
        assert(m.dom() =~= Set::empty());
        lemma_fold_empty(0int, |acc: int, k: Address| acc + amount(m[k]));
    } else {
        let k = m.dom().choose();
        lemma_total_remove(m, k, amount);
        lemma_total_nonneg(m.remove(k), amount);
    }
}

/// An operation on an existing ledger, with its arguments.
pub enum Operation {
    InitializeVault { caller: Address, protocol_vtoken_account: Address },
    Lock { amount: u64 },
    RequestRedemption { lp: Address, vtoken_amount: u64, now: i64, lp_vtoken_balance: u64 },
    ExecuteRedemption { caller: Address, lp: Address, now: i64, lp_vtoken_balance: u64 },
    CloseExpiredRedemption { lp: Address, now: i64 },
    Deposit { player: Address, amount: u64 },
    Settle { caller: Address, player: Address, pnl: i64, session_id: SessionId, now: i64 },
    Withdraw { caller: Address, player: Address, destination: Address, amount: u64 },
    SetPaused { caller: Address, paused: bool },
    UpdateServerPubkey { caller: Address, new_server_pubkey: Address },
    CloseSettledSession { caller: Address, session_id: SessionId, now: i64 },
}

/// The ledger after `op`, and the base asset the host moves into the vault
/// for it (negative where it pays out).
pub open spec fn apply(v: HouseboxView, op: Operation) -> (HouseboxView, int) {
    match op {
        Operation::InitializeVault { caller, protocol_vtoken_account } =>
            (initialize_vault_step(v, caller, protocol_vtoken_account).1, 0),
        Operation::Lock { amount } => {
            let (r, w) = lock_step(v, amount);
            (w, if r is Ok { amount as int } else { 0 })
        },
        Operation::RequestRedemption { lp, vtoken_amount, now, lp_vtoken_balance } =>
            (request_step(v, lp, vtoken_amount, now, lp_vtoken_balance).1, 0),
        Operation::ExecuteRedemption { caller, lp, now, lp_vtoken_balance } => {
            let (r, w) = execute_step(v, caller, lp, now, lp_vtoken_balance);
            (w, match r {
                Ok(t) => -(t.lamports_paid as int),
                Err(_) => 0,
            })
        },
        Operation::CloseExpiredRedemption { lp, now } => (close_expired_step(v, lp, now).1, 0),
        Operation::Deposit { player, amount } => {
            let (r, w) = deposit_step(v, player, amount);
            (w, if r is Ok { amount as int } else { 0 })
        },
        Operation::Settle { caller, player, pnl, session_id, now } =>
            (settle_step(v, caller, player, pnl, session_id, now).1, 0),
        Operation::Withdraw { caller, player, destination, amount } => {
            let (r, w) = withdraw_step(v, caller, player, destination, amount);
            (w, if r is Ok { -(amount as int) } else { 0 })
        },
        Operation::SetPaused { caller, paused } => (set_paused_step(v, caller, paused).1, 0),
        Operation::UpdateServerPubkey { caller, new_server_pubkey } =>
            (update_server_step(v, caller, new_server_pubkey).1, 0),
        Operation::CloseSettledSession { caller, session_id, now } =>
            (close_session_step(v, caller, session_id, now).1, 0),
    }
}

/// Every operation keeps the ledger well formed and changes what the house
/// owes by exactly what it moves into or out of the vault.
pub proof fn lemma_operation_keeps_custody(v: HouseboxView, op: Operation)
    requires
        v.wf(),
    ensures
        apply(v, op).0.wf(),
        owed(apply(v, op).0) == owed(v) + apply(v, op).1,
{
    let w = apply(v, op).0;
    match op {
        Operation::RequestRedemption { lp, vtoken_amount, now, lp_vtoken_balance } => {
            if request_step(v, lp, vtoken_amount, now, lp_vtoken_balance).0 is Ok {
                if v.state.redemption_policy == RedemptionPolicy::FixedAtRequest {
                    lemma_redeem_within_reserve(vtoken_amount as int, v.state.solsum as int, v.state.vsum as int);
                }
                lemma_total_insert(v.redemptions, lp, w.redemptions[lp], fixed_payout());
            }
        },
        Operation::ExecuteRedemption { caller, lp, now, lp_vtoken_balance } => {
            if execute_step(v, caller, lp, now, lp_vtoken_balance).0 is Ok {
                if v.state.redemption_policy == RedemptionPolicy::DeferredRatio {
                    let shares = v.redemptions[lp].vtoken_amount;
                    lemma_redeem_within_reserve(shares as int, v.state.solsum as int, v.state.vsum as int);
                }
                lemma_total_remove(v.redemptions, lp, fixed_payout());
            }
        },
        Operation::CloseExpiredRedemption { lp, now } => {
            if close_expired_step(v, lp, now).0 is Ok {
                lemma_total_remove(v.redemptions, lp, fixed_payout());
            }
        },
        Operation::Deposit { player, amount } => {
            if deposit_step(v, player, amount).0 is Ok {
                lemma_total_insert(v.escrows, player, w.escrows[player], escrow_amount());
            }
        },
        Operation::Settle { caller, player, pnl, session_id, now } => {
            if settle_step(v, caller, player, pnl, session_id, now).0 is Ok && pnl != 0 {
                lemma_total_insert(v.escrows, player, w.escrows[player], escrow_amount());
            }
        },
        Operation::Withdraw { caller, player, destination, amount } => {
            if withdraw_step(v, caller, player, destination, amount).0 is Ok {
                lemma_total_insert(v.escrows, player, w.escrows[player], escrow_amount());
            }
        },
        _ => {},
    }
}

/// The ledger after `ops` in turn, and the net base asset the host moved
/// into the vault for them.
pub open spec fn run(v: HouseboxView, ops: Seq<Operation>) -> (HouseboxView, int)
    decreases ops.len(),
{
    if ops.len() == 0 {
        (v, 0)
    } else {
        let (w, d) = apply(v, ops[0]);
        let (x, e) = run(w, ops.drop_first());
        (x, d + e)
    }
}

/// Over any run of operations, what the house owes changes by exactly the
/// net amount moved into the vault.
pub proof fn lemma_run_keeps_custody(v: HouseboxView, ops: Seq<Operation>)
    requires
        v.wf(),
    ensures
        run(v, ops).0.wf(),
        owed(run(v, ops).0) == owed(v) + run(v, ops).1,
    decreases ops.len(),
{
    if ops.len() > 0 {
        lemma_operation_keeps_custody(v, ops[0]);
        lemma_run_keeps_custody(apply(v, ops[0]).0, ops.drop_first());
    }
}

/// A ledger fresh from set-up owes nothing.
pub proof fn lemma_fresh_ledger_owes_nothing(
    authority: Address,
    server_pubkey: Address,
    lp_percent: u8,
    vtoken_mint: Address,
    mint_policy: MintPolicy,
    redemption_policy: RedemptionPolicy,
)
    requires
        initialize_step(authority, server_pubkey, lp_percent, vtoken_mint, mint_policy, redemption_policy) is Ok,
    ensures
        ({
            let v = initialize_step(authority, server_pubkey, lp_percent, vtoken_mint, mint_policy, redemption_policy)
                .unwrap();
            v.wf() && owed(v) == 0
        }),
{
    let v = initialize_step(authority, server_pubkey, lp_percent, vtoken_mint, mint_policy, redemption_policy).unwrap();
    assert(v.escrows.dom() =~= Set::<Address>::empty());
    assert(v.redemptions.dom() =~= Set::<Address>::empty());
    assert(v.sessions.dom() =~= Set::<SessionId>::empty());
    lemma_fold_empty(0int, |acc: int, k: Address| acc + escrow_amount()(v.escrows[k]));
    lemma_fold_empty(0int, |acc: int, k: Address| acc + fixed_payout()(v.redemptions[k]));
}

/// Solvency: from set-up on, whatever operations run, the vault holds
/// exactly what the house owes, and the reserve never exceeds what the
/// vault holds beyond the players' escrows.
pub proof fn lemma_reserve_within_vault(
    authority: Address,
    server_pubkey: Address,
    lp_percent: u8,
    vtoken_mint: Address,
    mint_policy: MintPolicy,
    redemption_policy: RedemptionPolicy,
    ops: Seq<Operation>,
)
    requires
        initialize_step(authority, server_pubkey, lp_percent, vtoken_mint, mint_policy, redemption_policy) is Ok,
    ensures
        ({
            let v = initialize_step(authority, server_pubkey, lp_percent, vtoken_mint, mint_policy, redemption_policy)
                .unwrap();
            let (w, vault) = run(v, ops);
            &&& owed(w) == vault
            &&& w.state.solsum <= vault - map_total(w.escrows, escrow_amount())
        }),
{
    let v = initialize_step(authority, server_pubkey, lp_percent, vtoken_mint, mint_policy, redemption_policy).unwrap();
    lemma_fresh_ledger_owes_nothing(authority, server_pubkey, lp_percent, vtoken_mint, mint_policy, redemption_policy);
    lemma_run_keeps_custody(v, ops);
    let w = run(v, ops).0;
    lemma_total_nonneg(w.redemptions, fixed_payout());
}

} // verus!
