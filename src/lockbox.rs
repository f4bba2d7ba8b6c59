//! The fixed-rate exchange: the base asset in, chips out at a constant
//! rate, and back.

use vstd::prelude::*;
use crate::keys::Address;

verus! {

/// Chips for one whole unit of the base asset.
pub const CHIPS_PER_SOL: u64 = 1000;

/// Base-asset subunits in one whole unit.
pub const LAMPORTS_PER_SOL: u64 = 1_000_000_000;

#[derive(Clone, Copy, Debug, PartialEq, Eq, Structural)]
pub enum LockboxError {
    ZeroAmount,
    AmountTooSmall,
    MathOverflow,
    InsufficientVaultBalance,
}

impl LockboxError {
    /// A sentence that tells a user what went wrong.
    pub fn message(&self) -> &'static str {
        match self {
            LockboxError::ZeroAmount => "Amount must be greater than zero",
            LockboxError::AmountTooSmall => "Amount too small after conversion",
            LockboxError::MathOverflow => "Math overflow",
            LockboxError::InsufficientVaultBalance => "Insufficient SOL in vault",
        }
    }
}

#[derive(Clone, Copy, Debug, PartialEq, Eq)]
pub struct LockboxState {
    pub authority: Address,
    /// The chip mint.
    pub chips_mint: Address,
    pub chips_per_sol: u64,
    /// Base-asset subunits taken in and not yet paid back.
    pub total_sol_deposited: u64,
}

/// Sets up the exchange at the fixed rate, with nothing deposited.
pub fn initialize(authority: Address, chips_mint: Address) -> (r: LockboxState)
    ensures
        r == (LockboxState { authority, chips_mint, chips_per_sol: CHIPS_PER_SOL, total_sol_deposited: 0 }),
{
    LockboxState { authority, chips_mint, chips_per_sol: CHIPS_PER_SOL, total_sol_deposited: 0 }
}

/// Chips bought by `amount_lamports`, rounded down.
pub open spec fn chips_for(amount_lamports: int) -> int {
    amount_lamports * CHIPS_PER_SOL as int / LAMPORTS_PER_SOL as int
}

/// Base-asset subunits returned for `chips_amount`, rounded down.
pub open spec fn lamports_for(chips_amount: int) -> int {
    chips_amount * LAMPORTS_PER_SOL as int / CHIPS_PER_SOL as int
}

/// A user pays in `amount_lamports` and receives the chips returned: the
/// host moves the amount into the vault and mints the chips.
pub fn deposit_sol(s: &mut LockboxState, amount_lamports: u64) -> (r: Result<u64, LockboxError>)
    ensures
        amount_lamports == 0 ==> r == Err::<u64, LockboxError>(LockboxError::ZeroAmount),
        amount_lamports > 0 && amount_lamports * CHIPS_PER_SOL > u64::MAX
            ==> r == Err::<u64, LockboxError>(LockboxError::MathOverflow),
        amount_lamports > 0 && amount_lamports * CHIPS_PER_SOL <= u64::MAX && chips_for(amount_lamports as int) == 0
            ==> r == Err::<u64, LockboxError>(LockboxError::AmountTooSmall),
        amount_lamports > 0 && amount_lamports * CHIPS_PER_SOL <= u64::MAX && chips_for(amount_lamports as int) > 0
            && old(s).total_sol_deposited + amount_lamports > u64::MAX
            ==> r == Err::<u64, LockboxError>(LockboxError::MathOverflow),
        r is Err ==> *final(s) == *old(s),
        amount_lamports > 0 && amount_lamports * CHIPS_PER_SOL <= u64::MAX && chips_for(amount_lamports as int) > 0
            && old(s).total_sol_deposited + amount_lamports <= u64::MAX
            ==> r == Ok::<u64, LockboxError>(chips_for(amount_lamports as int) as u64)
            && *final(s) == (LockboxState {
                total_sol_deposited: (old(s).total_sol_deposited + amount_lamports) as u64,
                ..*old(s)
            }),
{
    if amount_lamports == 0 {
        return Err(LockboxError::ZeroAmount);
    }
    let scaled = match amount_lamports.checked_mul(CHIPS_PER_SOL) {
        Some(x) => x,
        None => return Err(LockboxError::MathOverflow),
    };
    let chips_amount = scaled / LAMPORTS_PER_SOL;
    if chips_amount == 0 {
        return Err(LockboxError::AmountTooSmall);
    }
    let total = match s.total_sol_deposited.checked_add(amount_lamports) {
        Some(x) => x,
        None => return Err(LockboxError::MathOverflow),
    };
    s.total_sol_deposited = total;
    Ok(chips_amount)
}

/// A user burns `chips_amount` chips for base asset paid out of a vault
/// that holds `vault_lamports`: the host burns the chips and pays the
/// amount returned.
pub fn withdraw_sol(s: &mut LockboxState, chips_amount: u64, vault_lamports: u64) -> (r: Result<u64, LockboxError>)
    ensures
        chips_amount == 0 ==> r == Err::<u64, LockboxError>(LockboxError::ZeroAmount),
        chips_amount > 0 && chips_amount * LAMPORTS_PER_SOL > u64::MAX
            ==> r == Err::<u64, LockboxError>(LockboxError::MathOverflow),
        chips_amount > 0 && chips_amount * LAMPORTS_PER_SOL <= u64::MAX && vault_lamports < lamports_for(chips_amount as int)
            ==> r == Err::<u64, LockboxError>(LockboxError::InsufficientVaultBalance),
        chips_amount > 0 && chips_amount * LAMPORTS_PER_SOL <= u64::MAX && vault_lamports >= lamports_for(chips_amount as int)
            && old(s).total_sol_deposited < lamports_for(chips_amount as int)
            ==> r == Err::<u64, LockboxError>(LockboxError::MathOverflow),
        r is Err ==> *final(s) == *old(s),
        chips_amount > 0 && chips_amount * LAMPORTS_PER_SOL <= u64::MAX && vault_lamports >= lamports_for(chips_amount as int)
            && old(s).total_sol_deposited >= lamports_for(chips_amount as int)
            ==> r == Ok::<u64, LockboxError>(lamports_for(chips_amount as int) as u64)
            && *final(s) == (LockboxState {
                total_sol_deposited: (old(s).total_sol_deposited - lamports_for(chips_amount as int)) as u64,
                ..*old(s)
            }),
{
    if chips_amount == 0 {
        return Err(LockboxError::ZeroAmount);
    }
    let scaled = match chips_amount.checked_mul(LAMPORTS_PER_SOL) {
        Some(x) => x,
        None => return Err(LockboxError::MathOverflow),
    };
    let lamports_amount = scaled / CHIPS_PER_SOL;
    if vault_lamports < lamports_amount {
        return Err(LockboxError::InsufficientVaultBalance);
    }
    let total = match s.total_sol_deposited.checked_sub(lamports_amount) {
        Some(x) => x,
        None => return Err(LockboxError::MathOverflow),
    };
    s.total_sol_deposited = total;
    Ok(lamports_amount)
}

} // verus!
