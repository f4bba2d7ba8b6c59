//! A pooled-liquidity ledger for a wagering house: liquidity providers lock
//! the base asset for proportional shares and redeem them after a delay,
//! players hold escrow balances that a trusted settler adjusts, and a
//! fixed-rate exchange hands out chips for the base asset.
//!
//! Each operation is a verified transition of the ledger's model; the host
//! that runs it supplies the clock and token balances, and performs the
//! transfers that an operation's result describes.

pub mod keys;
pub mod store;
pub mod state;
pub mod shares;
pub mod housebox;
pub mod lockbox;
pub mod laws;
pub mod custody;
