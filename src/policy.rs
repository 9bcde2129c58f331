use vstd::prelude::*;

use crate::error::ErrorCode;
use crate::wallet::AgentWallet;

verus! {

/// Length of the rolling spend window, in seconds.
pub const SECONDS_PER_DAY: i64 = 86400;

/// How long after its creation an intent can still be executed, in seconds.
pub const INTENT_LIFETIME: i64 = 3600;

/// The window that started at `last_reset` is over at `now`.
pub open spec fn window_due(last_reset: i64, now: i64) -> bool {
    now as int >= last_reset as int + SECONDS_PER_DAY as int
}

/// An intent created at `timestamp` has expired at `now`.
pub open spec fn expired(timestamp: i64, now: i64) -> bool {
    now as int > timestamp as int + INTENT_LIFETIME as int
}

/// Adding `amount` to `spent` stays within `limit`.
pub open spec fn fits_daily(spent: u64, amount: u64, limit: u64) -> bool {
    spent as int + amount as int <= limit as int
}

/// The verdict of the limit policy on `amount` for the wallet as it stands.
pub open spec fn admission(w: AgentWallet, amount: u64) -> Result<(), ErrorCode> {
    if amount > w.spending_limit {
        Err(ErrorCode::ExceedsSpendingLimit)
    } else if !fits_daily(w.daily_spent, amount, w.daily_limit) {
        Err(ErrorCode::ExceedsDailyLimit)
    } else {
        Ok(())
    }
}

pub fn rollover_due(last_reset: i64, now: i64) -> (r: bool)
    ensures
        r == window_due(last_reset, now),
{
    (now as i128) >= (last_reset as i128) + (SECONDS_PER_DAY as i128)
}

pub fn is_expired(timestamp: i64, now: i64) -> (r: bool)
    ensures
        r == expired(timestamp, now),
{
    (now as i128) > (timestamp as i128) + (INTENT_LIFETIME as i128)
}

pub fn within_daily(spent: u64, amount: u64, limit: u64) -> (r: bool)
    ensures
        r == fits_daily(spent, amount, limit),
{
    (spent as u128) + (amount as u128) <= (limit as u128)
}

/// Limit policy: `amount` is admissible iff it is within the per-intent limit
/// and, added to the window's spend, within the daily limit. Pure; the caller
/// rolls the window over first.
pub fn check_admissible(wallet: &AgentWallet, amount: u64) -> (r: Result<(), ErrorCode>)
    ensures
        r == admission(*wallet, amount),
{
    if amount > wallet.spending_limit {
        return Err(ErrorCode::ExceedsSpendingLimit);
    }
    if !within_daily(wallet.daily_spent, amount, wallet.daily_limit) {
        return Err(ErrorCode::ExceedsDailyLimit);
    }
    Ok(())
}

} // verus!
