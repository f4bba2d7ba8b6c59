//! The house's records, its errors, and the model that operations are
//! specified over.

use vstd::prelude::*;
use crate::keys::{keys_equal, Address, SessionId};
use crate::store::{Keyed, Store};

verus! {

/// The share of newly minted shares that goes to the depositing LP when
/// none is configured.
pub const DEFAULT_LP_PERCENT: u8 = 80;

/// Seconds between a redemption request and the earliest execution.
pub const REDEMPTION_DELAY_SECONDS: i64 = 60;

/// Seconds after maturity during which a deferred redemption may still run.
pub const REDEMPTION_EXPIRY_SECONDS: i64 = 60;

/// Seconds a settlement marker must age before it may be closed.
pub const SETTLEMENT_MIN_AGE_SECONDS: i64 = 3600;

#[derive(Clone, Copy, Debug, PartialEq, Eq, Structural)]
pub enum HouseboxError {
    ZeroAmount,
    AmountTooSmall,
    MathOverflow,
    ProtocolPaused,
    Unauthorized,
    InvalidLpPercent,
    NoLiquidity,
    InsufficientEscrow,
    HouseInsolvent,
    InvalidServerSignature,
    WithdrawalAddressMismatch,
    RedemptionNotReady,
    SettlementTooRecent,
    InsufficientVtokens,
    RedemptionExpired,
    RedemptionNotExpired,
    /// The vault and protocol share account were set up already.
    AlreadyInitialized,
    /// The player has no escrow record.
    EscrowNotFound,
    /// The LP has a redemption request pending already.
    RedemptionPending,
    /// The LP has no pending redemption request.
    RedemptionNotFound,
    /// A settlement marker for this session exists already.
    SessionAlreadySettled,
    /// No settlement marker exists for this session.
    SessionNotFound,
}

impl HouseboxError {
    /// A sentence that tells a user what went wrong.
    pub fn message(&self) -> &'static str {
        match self {
            HouseboxError::ZeroAmount => "Amount must be greater than zero",
            HouseboxError::AmountTooSmall => "Amount too small after calculation",
            HouseboxError::MathOverflow => "Math overflow",
            HouseboxError::ProtocolPaused => "Protocol is paused",
            HouseboxError::Unauthorized => "Unauthorized",
            HouseboxError::InvalidLpPercent => "Invalid LP percent (must be 1-100)",
            HouseboxError::NoLiquidity => "No liquidity in house",
            HouseboxError::InsufficientEscrow => "Insufficient escrow balance",
            HouseboxError::HouseInsolvent => "House is insolvent - cannot pay winnings",
            HouseboxError::InvalidServerSignature => "Invalid server signature",
            HouseboxError::WithdrawalAddressMismatch => "Withdrawal destination does not match verified address",
            HouseboxError::RedemptionNotReady => "Redemption delay not yet elapsed",
            HouseboxError::SettlementTooRecent => "Settlement too recent to close (must be > 1 hour old)",
            HouseboxError::InsufficientVtokens => "LP has insufficient vTokens for redemption",
            HouseboxError::RedemptionExpired => "Redemption claim window has expired",
            HouseboxError::RedemptionNotExpired => "Redemption has not expired yet",
            HouseboxError::AlreadyInitialized => "Vault already initialized",
            HouseboxError::EscrowNotFound => "Player has no escrow",
            HouseboxError::RedemptionPending => "A redemption request is pending already",
            HouseboxError::RedemptionNotFound => "No pending redemption request",
            HouseboxError::SessionAlreadySettled => "Session settled already",
            HouseboxError::SessionNotFound => "No settlement marker for this session",
        }
    }
}

/// How many shares a lock mints.
#[derive(Clone, Copy, Debug, PartialEq, Eq, Structural)]
pub enum MintPolicy {
    /// Shares in proportion to the pool: `amount * vsum / solsum`.
    RateAware,
    /// One share per unit locked.
    OneToOne,
}

/// How a redemption is priced and settled.
#[derive(Clone, Copy, Debug, PartialEq, Eq, Structural)]
pub enum RedemptionPolicy {
    /// Intent only at request; the LP executes inside a window, at the ratio
    /// of that moment, and burns then.
    DeferredRatio,
    /// Shares burned and payout fixed at request; anyone executes after the
    /// delay.
    FixedAtRequest,
}

/// The roles that gate privileged operations.
#[derive(Clone, Copy, Debug, PartialEq, Eq, Structural)]
pub enum Capability {
    /// Configuration and the protocol's own shares.
    Authority,
    /// Pausing and unpausing.
    PauseAuthority,
    /// Settlement, withdrawals, and closing settlement markers.
    TrustedSettler,
}

/// The singleton pool configuration and share-pool totals.
#[derive(Clone, Copy, Debug, PartialEq, Eq)]
pub struct HouseboxState {
    /// May change configuration and move protocol-owned shares.
    pub authority: Address,
    /// Signs settlements and authorises withdrawals.
    pub server_pubkey: Address,
    /// May pause and unpause.
    pub pause_authority: Address,
    /// The share-token mint.
    pub vtoken_mint: Address,
    /// The protocol's own share account, once the vault is set up.
    pub protocol_vtoken_account: Option<Address>,
    /// Percentage (1 to 100) of minted shares that goes to the LP.
    pub lp_percent: u8,
    pub paused: bool,
    /// Base-asset units owed to share holders (escrow excluded).
    pub solsum: u64,
    /// Shares outstanding.
    pub vsum: u64,
    pub mint_policy: MintPolicy,
    pub redemption_policy: RedemptionPolicy,
}

/// A player's custodial balance.
#[derive(Clone, Copy, Debug, PartialEq, Eq)]
pub struct PlayerEscrow {
    pub player: Address,
    pub balance: u64,
    /// Fixed to the player on the first deposit; every withdrawal goes there.
    pub verified_withdrawal_address: Address,
}

/// The replay marker of one settled session.
#[derive(Clone, Copy, Debug, PartialEq, Eq)]
pub struct SettledSession {
    pub session_id: SessionId,
    pub player: Address,
    pub settled_at: i64,
}

/// An LP's pending redemption.
#[derive(Clone, Copy, Debug, PartialEq, Eq)]
pub struct RedemptionRequest {
    pub lp: Address,
    /// Shares to burn (deferred) or burned already (fixed at request).
    pub vtoken_amount: u64,
    /// The payout fixed at request; zero while it is deferred.
    pub sol_amount: u64,
    pub requested_at: i64,
}

impl HouseboxState {
    /// The identity that holds `cap`.
    pub open spec fn holder(self, cap: Capability) -> Address {
        match cap {
            Capability::Authority => self.authority,
            Capability::PauseAuthority => self.pause_authority,
            Capability::TrustedSettler => self.server_pubkey,
        }
    }

    /// Whether `caller` holds `cap`.
    pub fn grants(&self, caller: &Address, cap: Capability) -> (r: bool)
        ensures
            r == (*caller == self.holder(cap)),
    {
        match cap {
            Capability::Authority => keys_equal(caller, &self.authority),
            Capability::PauseAuthority => keys_equal(caller, &self.pause_authority),
            Capability::TrustedSettler => keys_equal(caller, &self.server_pubkey),
        }
    }
}

impl Keyed for PlayerEscrow {
    open spec fn key(&self) -> [u8; 32] {
        self.player
    }

    fn key_of(&self) -> (r: [u8; 32]) {
        self.player
    }
}

impl Keyed for SettledSession {
    open spec fn key(&self) -> [u8; 32] {
        self.session_id
    }

    fn key_of(&self) -> (r: [u8; 32]) {
        self.session_id
    }
}

impl Keyed for RedemptionRequest {
    open spec fn key(&self) -> [u8; 32] {
        self.lp
    }

    fn key_of(&self) -> (r: [u8; 32]) {
        self.lp
    }
}

/// The whole ledger: configuration, totals, and the per-owner records.
pub struct Housebox {
    pub state: HouseboxState,
    pub escrows: Store<PlayerEscrow>,
    pub redemptions: Store<RedemptionRequest>,
    pub sessions: Store<SettledSession>,
}

/// What a ledger is, as the operations' contracts see it.
pub struct HouseboxView {
    pub state: HouseboxState,
    /// Escrow by player.
    pub escrows: Map<Address, PlayerEscrow>,
    /// Pending redemption by LP.
    pub redemptions: Map<Address, RedemptionRequest>,
    /// Settlement marker by session.
    pub sessions: Map<SessionId, SettledSession>,
}

/// The configured LP percentage lies in 1 to 100.
pub open spec fn valid_state(s: HouseboxState) -> bool {
    1 <= s.lp_percent <= 100
}

/// Every record is filed under its own key.
pub open spec fn records_keyed(v: HouseboxView) -> bool {
    &&& forall|k: Address| #[trigger] v.escrows.contains_key(k) ==> v.escrows[k].player == k
    &&& forall|k: Address| #[trigger] v.redemptions.contains_key(k) ==> v.redemptions[k].lp == k
    &&& forall|k: SessionId| #[trigger] v.sessions.contains_key(k) ==> v.sessions[k].session_id == k
}

/// Finitely many records of each kind.
pub open spec fn records_finite(v: HouseboxView) -> bool {
    &&& v.escrows.dom().finite()
    &&& v.redemptions.dom().finite()
    &&& v.sessions.dom().finite()
}

/// Under a deferred policy no request carries a fixed payout.
pub open spec fn deferred_unpriced(v: HouseboxView) -> bool {
    v.state.redemption_policy == RedemptionPolicy::DeferredRatio ==> forall|k: Address|
        #[trigger] v.redemptions.contains_key(k) ==> v.redemptions[k].sol_amount == 0
}

impl HouseboxView {
    pub open spec fn wf(self) -> bool {
        &&& valid_state(self.state)
        &&& records_keyed(self)
        &&& records_finite(self)
        &&& deferred_unpriced(self)
    }
}

impl Housebox {
    pub open spec fn view(&self) -> HouseboxView {
        HouseboxView {
            state: self.state,
            escrows: self.escrows@,
            redemptions: self.redemptions@,
            sessions: self.sessions@,
        }
    }

    pub open spec fn wf(&self) -> bool {
        &&& self.escrows.wf()
        &&& self.redemptions.wf()
        &&& self.sessions.wf()
        &&& self@.wf()
    }
}

} // verus!
