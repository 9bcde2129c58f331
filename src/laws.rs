use vstd::prelude::*;

use crate::error::ErrorCode;
use crate::intent::{after_create, after_spend, execution_check, SpendIntent};
use crate::policy::{fits_daily, INTENT_LIFETIME, SECONDS_PER_DAY};
use crate::wallet::{rolled_over, same_but_operators, with_limits, AgentWallet};

verus! {

/// `post` is what one wallet operation may leave of `pre`: a rejected
/// operation (no change), a rollover, a change of operators, a change of
/// limits that keeps the daily limit at or above the window's spend, a created
/// intent, or an executed one whose amount fit the window.
pub open spec fn wallet_step(pre: AgentWallet, post: AgentWallet) -> bool {
    ||| post == pre
    ||| exists|now: i64| post == rolled_over(pre, now)
    ||| same_but_operators(pre, post)
    ||| exists|s: Option<u64>, d: Option<u64>|
        {
            &&& post == with_limits(pre, s, d)
            &&& (d matches Some(l) ==> pre.daily_spent <= l)
        }
    ||| exists|now: i64| post == after_create(pre, now)
    ||| exists|amount: u64, now: i64|
        {
            &&& fits_daily(rolled_over(pre, now).daily_spent, amount, pre.daily_limit)
            &&& post == after_spend(pre, amount, now)
        }
}

/// Consecutive wallets of `ws` are steps of `wallet_step`.
pub open spec fn is_run(ws: Seq<AgentWallet>) -> bool {
    forall|k: int| 0 <= k < ws.len() - 1 ==> wallet_step(#[trigger] ws[k], ws[k + 1])
}

/// One step keeps the window's spend within the daily limit.
pub proof fn lemma_step_keeps_cap(pre: AgentWallet, post: AgentWallet)
    requires
        pre.within_cap(),
        wallet_step(pre, post),
    ensures
        post.within_cap(),
{
    if post == pre {
    } else if exists|now: i64| post == rolled_over(pre, now) {
    } else if same_but_operators(pre, post) {
    } else if exists|s: Option<u64>, d: Option<u64>|
        {
            &&& post == with_limits(pre, s, d)
            &&& (d matches Some(l) ==> pre.daily_spent <= l)
        } {
    } else if exists|now: i64| post == after_create(pre, now) {
    } else {
    }
}

/// After any run of wallet operations from a wallet whose spend is within its
/// daily limit, every wallet of the run has its spend within its daily limit.
/// The one kind of operation left out is an owner's limit update that sets the
/// daily limit below what the window has already spent.
pub proof fn lemma_daily_spent_within_limit(ws: Seq<AgentWallet>)
    requires
        ws.len() > 0,
        ws[0].within_cap(),
        is_run(ws),
    ensures
        forall|k: int| 0 <= k < ws.len() ==> #[trigger] ws[k].within_cap(),
    decreases ws.len(),
{
    if ws.len() > 1 {
        let front = ws.drop_last();
        assert forall|k: int| 0 <= k < front.len() - 1 implies wallet_step(
            #[trigger] front[k],
            front[k + 1],
        ) by {
            assert(wallet_step(ws[k], ws[k + 1]));
        }
        lemma_daily_spent_within_limit(front);
        let n = ws.len() - 1;
        assert(front[n - 1] == ws[n - 1]);
        assert(wallet_step(ws[n - 1], ws[n]));
        lemma_step_keeps_cap(ws[n - 1], ws[n]);
        assert forall|k: int| 0 <= k < ws.len() implies #[trigger] ws[k].within_cap() by {
            if k < n {
                assert(front[k] == ws[k]);
            }
        }
    }
}

/// An intent that one execution has marked executed is refused by every later
/// execution, for any wallet and at any time, with `AlreadyExecuted`: no
/// second transfer is granted for it.
pub proof fn lemma_executes_once(w: AgentWallet, i: SpendIntent, now: i64, later: AgentWallet, at: i64)
    requires
        execution_check(w, i, now) is Ok,
    ensures
        !i.executed,
        execution_check(later, SpendIntent { executed: true, ..i }, at) == Err::<(), ErrorCode>(
            ErrorCode::AlreadyExecuted,
        ),
{
}

/// An intent can still be executed exactly `INTENT_LIFETIME` seconds after its
/// creation, and has expired one second later.
pub proof fn lemma_expiry_boundary(w: AgentWallet, i: SpendIntent)
    requires
        !i.executed,
        i.timestamp as int + INTENT_LIFETIME as int + 1 <= i64::MAX as int,
    ensures
        execution_check(w, i, (i.timestamp + INTENT_LIFETIME) as i64) != Err::<(), ErrorCode>(
            ErrorCode::IntentExpired,
        ),
        execution_check(w, i, (i.timestamp + INTENT_LIFETIME + 1) as i64) == Err::<(), ErrorCode>(
            ErrorCode::IntentExpired,
        ),
{
}

/// The window rolls over exactly `SECONDS_PER_DAY` seconds after it started,
/// and not a second earlier.
pub proof fn lemma_rollover_boundary(w: AgentWallet)
    requires
        w.last_reset_timestamp as int + SECONDS_PER_DAY as int <= i64::MAX as int,
    ensures
        rolled_over(w, (w.last_reset_timestamp + SECONDS_PER_DAY) as i64).daily_spent == 0,
        rolled_over(w, (w.last_reset_timestamp + SECONDS_PER_DAY) as i64).last_reset_timestamp
            == w.last_reset_timestamp + SECONDS_PER_DAY,
        rolled_over(w, (w.last_reset_timestamp + SECONDS_PER_DAY - 1) as i64) == w,
{
}

} // verus!
