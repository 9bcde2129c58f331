use vstd::prelude::*;

use crate::authority::{
    derived_authority_spec, intent_address, intent_seeds, program_address_search, sign_transfer,
    wallet_seeds, SignedTransfer,
};
use crate::error::ErrorCode;
use crate::events::{SpendIntentCreated, SpendIntentExecuted};
use crate::identity::Identity;
use crate::laws::wallet_step;
use crate::policy::{
    admission, check_admissible, expired, fits_daily, is_expired, rollover_due, within_daily,
};
use crate::wallet::{rollover_if_due, rolled_over, AgentWallet};

verus! {

/// A proposed transfer of `amount` to `recipient`, executable once, within
/// `INTENT_LIFETIME` seconds of `timestamp`.
#[derive(Clone, Copy, Debug)]
pub struct SpendIntent {
    pub wallet: Identity,
    pub recipient: Identity,
    pub amount: u64,
    pub timestamp: i64,
    pub executed: bool,
    pub bump: u8,
}

/// The wallet after an intent was created at `now`: its window rolled over and
/// its counter one further.
pub open spec fn after_create(w: AgentWallet, now: i64) -> AgentWallet {
    AgentWallet { nonce: (rolled_over(w, now).nonce + 1) as u64, ..rolled_over(w, now) }
}

/// The wallet after `amount` was spent at `now`.
pub open spec fn after_spend(w: AgentWallet, amount: u64, now: i64) -> AgentWallet {
    AgentWallet {
        daily_spent: (rolled_over(w, now).daily_spent + amount) as u64,
        ..rolled_over(w, now)
    }
}

/// What stands between an intent and its execution at `now`, checked in this
/// order: it was executed before, it has expired, or its amount no longer fits
/// the window (after rollover). The per-intent limit was checked at creation.
pub open spec fn execution_check(w: AgentWallet, i: SpendIntent, now: i64) -> Result<(), ErrorCode> {
    if i.executed {
        Err(ErrorCode::AlreadyExecuted)
    } else if expired(i.timestamp, now) {
        Err(ErrorCode::IntentExpired)
    } else if !fits_daily(rolled_over(w, now).daily_spent, i.amount, w.daily_limit) {
        Err(ErrorCode::ExceedsDailyLimit)
    } else {
        Ok(())
    }
}

/// `i` is the intent that creation at `now` fills in.
pub open spec fn is_new_intent(
    i: SpendIntent,
    wallet_key: Identity,
    recipient: Identity,
    amount: u64,
    now: i64,
    bump: u8,
) -> bool {
    &&& i.wallet == wallet_key
    &&& i.recipient == recipient
    &&& i.amount == amount
    &&& i.timestamp == now
    &&& !i.executed
    &&& i.bump == bump
}

/// Proposes a transfer of `amount` to `recipient` from the wallet at
/// `wallet_key`. The window is rolled over first, then the amount is held to
/// both limits; the intent is stored at the address derived from the wallet
/// and its counter, and the counter moves on by one. Any caller may propose.
pub fn create_spend_intent(
    wallet: &mut AgentWallet,
    wallet_key: Identity,
    amount: u64,
    recipient: Identity,
    now: i64,
    program_id: &Identity,
) -> (r: Result<(SpendIntent, SpendIntentCreated), ErrorCode>)
    requires
        old(wallet).nonce < u64::MAX,
    ensures
        admission(rolled_over(*old(wallet), now), amount) is Err ==> r == Err::<
            (SpendIntent, SpendIntentCreated),
            ErrorCode,
        >(admission(rolled_over(*old(wallet), now), amount)->Err_0),
        admission(rolled_over(*old(wallet), now), amount) is Ok ==> match program_address_search(
            intent_seeds(wallet_key, old(wallet).nonce),
            program_id@,
        ) {
            None => r == Err::<(SpendIntent, SpendIntentCreated), ErrorCode>(
                ErrorCode::AddressUnavailable,
            ),
            Some((key, bump)) => match r {
                Ok((i, ev)) => {
                    &&& is_new_intent(i, wallet_key, recipient, amount, now, bump)
                    &&& ev.intent@ == key
                    &&& ev.wallet == wallet_key
                    &&& ev.recipient == recipient
                    &&& ev.amount == amount
                },
                Err(_) => false,
            },
        },
        r is Err ==> *final(wallet) == *old(wallet),
        r is Ok ==> *final(wallet) == after_create(*old(wallet), now),
        wallet_step(*old(wallet), *final(wallet)),
{
    let spent = wallet.daily_spent;
    let reset = wallet.last_reset_timestamp;
    rollover_if_due(wallet, now);
    if let Err(e) = check_admissible(wallet, amount) {
        wallet.daily_spent = spent;
        wallet.last_reset_timestamp = reset;
        return Err(e);
    }
    match intent_address(&wallet_key, wallet.nonce, program_id) {
        None => {
            wallet.daily_spent = spent;
            wallet.last_reset_timestamp = reset;
            Err(ErrorCode::AddressUnavailable)
        },
        Some((key, bump)) => {
            let intent = SpendIntent {
                wallet: wallet_key,
                recipient,
                amount,
                timestamp: now,
                executed: false,
                bump,
            };
            wallet.nonce = wallet.nonce + 1;
            assert(*wallet == after_create(*old(wallet), now));
            let ev = SpendIntentCreated { intent: key, wallet: wallet_key, recipient, amount };
            Ok((intent, ev))
        },
    }
}

/// Checks an intent against the wallet at `now` without changing either, and
/// grants the one transfer that executing it makes, under the wallet's derived
/// signing identity.
pub fn authorize_execution(
    wallet: &AgentWallet,
    intent: &SpendIntent,
    now: i64,
    program_id: &Identity,
) -> (r: Result<SignedTransfer, ErrorCode>)
    ensures
        execution_check(*wallet, *intent, now) is Err ==> r == Err::<SignedTransfer, ErrorCode>(
            execution_check(*wallet, *intent, now)->Err_0,
        ),
        execution_check(*wallet, *intent, now) is Ok ==> match derived_authority_spec(
            wallet.owner,
            wallet.bump,
            *program_id,
        ) {
            None => r == Err::<SignedTransfer, ErrorCode>(ErrorCode::AddressUnavailable),
            Some(a) => r matches Ok(t) && {
                &&& t.spec_authority()@ == a
                &&& t.spec_recipient() == intent.recipient
                &&& t.spec_amount() == intent.amount
                &&& t.spec_signer_seeds() == wallet_seeds(wallet.owner).push(seq![wallet.bump])
            },
        },
{
    if let Err(e) = check_execution(wallet, intent, now) {
        return Err(e);
    }
    match sign_transfer(&wallet.owner, wallet.bump, intent.recipient, intent.amount, program_id) {
        None => Err(ErrorCode::AddressUnavailable),
        Some(t) => Ok(t),
    }
}

fn check_execution(wallet: &AgentWallet, intent: &SpendIntent, now: i64) -> (r: Result<(), ErrorCode>)
    ensures
        r == execution_check(*wallet, *intent, now),
{
    if intent.executed {
        return Err(ErrorCode::AlreadyExecuted);
    }
    if is_expired(intent.timestamp, now) {
        return Err(ErrorCode::IntentExpired);
    }
    let spent = if rollover_due(wallet.last_reset_timestamp, now) {
        0
    } else {
        wallet.daily_spent
    };
    if !within_daily(spent, intent.amount, wallet.daily_limit) {
        return Err(ErrorCode::ExceedsDailyLimit);
    }
    Ok(())
}

/// Executes an intent at `now`, once the transfer that `authorize_execution`
/// granted has been made (`transfer_completed`). The checks are made again;
/// on success the intent is marked executed and its amount is added to the
/// window's spend (after rollover). Whatever fails, nothing changes.
pub fn execute_spend_intent(
    wallet: &mut AgentWallet,
    intent: &mut SpendIntent,
    intent_key: Identity,
    now: i64,
    transfer_completed: bool,
) -> (r: Result<SpendIntentExecuted, ErrorCode>)
    ensures
        execution_check(*old(wallet), *old(intent), now) is Err ==> r == Err::<
            SpendIntentExecuted,
            ErrorCode,
        >(execution_check(*old(wallet), *old(intent), now)->Err_0),
        execution_check(*old(wallet), *old(intent), now) is Ok && !transfer_completed ==> r
            == Err::<SpendIntentExecuted, ErrorCode>(ErrorCode::TransferFailed),
        execution_check(*old(wallet), *old(intent), now) is Ok && transfer_completed ==> r
            == Ok::<SpendIntentExecuted, ErrorCode>(
            (SpendIntentExecuted { intent: intent_key, amount: old(intent).amount }),
        ),
        r is Err ==> *final(wallet) == *old(wallet) && *final(intent) == *old(intent),
        r is Ok ==> {
            &&& *final(wallet) == after_spend(*old(wallet), old(intent).amount, now)
            &&& *final(intent) == (SpendIntent { executed: true, ..*old(intent) })
            &&& final(wallet).within_cap()
        },
        wallet_step(*old(wallet), *final(wallet)),
{
    if let Err(e) = check_execution(wallet, intent, now) {
        return Err(e);
    }
    if !transfer_completed {
        return Err(ErrorCode::TransferFailed);
    }
    rollover_if_due(wallet, now);
    intent.executed = true;
    wallet.daily_spent = wallet.daily_spent + intent.amount;
    assert(*wallet == after_spend(*old(wallet), old(intent).amount, now));
    Ok(SpendIntentExecuted { intent: intent_key, amount: intent.amount })
}

} // verus!
