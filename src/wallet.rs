use vstd::prelude::*;

use crate::authority::{wallet_address, wallet_address_spec};
use crate::error::ErrorCode;
use crate::events::{OperatorAdded, OperatorRemoved, WalletInitialized};
use crate::identity::{same_identity, Identity};
use crate::laws::wallet_step;
use crate::policy::{rollover_due, window_due};

verus! {

/// Most operators a wallet can hold.
pub const MAX_OPERATORS: usize = 10;

/// An owner's wallet: its limits, its delegated operators, the rolling
/// window's bookkeeping and the intent sequence counter.
#[derive(Clone, Debug)]
pub struct AgentWallet {
    pub owner: Identity,
    pub agent_authority: Identity,
    pub spending_limit: u64,
    pub daily_limit: u64,
    pub daily_spent: u64,
    pub last_reset_timestamp: i64,
    pub nonce: u64,
    pub operators: Vec<Identity>,
    pub bump: u8,
}

impl AgentWallet {
    /// The operator set holds no identity twice and at most `MAX_OPERATORS`.
    pub open spec fn operators_wf(&self) -> bool {
        &&& self.operators@.no_duplicates()
        &&& self.operators@.len() <= MAX_OPERATORS
    }

    /// The window's spend is within the daily limit.
    pub open spec fn within_cap(&self) -> bool {
        self.daily_spent <= self.daily_limit
    }
}

/// `b` is `a` with (at most) a different operator list.
pub open spec fn same_but_operators(a: AgentWallet, b: AgentWallet) -> bool {
    &&& a.owner == b.owner
    &&& a.agent_authority == b.agent_authority
    &&& a.spending_limit == b.spending_limit
    &&& a.daily_limit == b.daily_limit
    &&& a.daily_spent == b.daily_spent
    &&& a.last_reset_timestamp == b.last_reset_timestamp
    &&& a.nonce == b.nonce
    &&& a.bump == b.bump
}

/// Every identity but `op`.
pub open spec fn others(op: Identity) -> spec_fn(Identity) -> bool {
    |x: Identity| x != op
}

/// The wallet with its window rolled over at `now`, where it is due.
pub open spec fn rolled_over(w: AgentWallet, now: i64) -> AgentWallet {
    if window_due(w.last_reset_timestamp, now) {
        AgentWallet { daily_spent: 0, last_reset_timestamp: now, ..w }
    } else {
        w
    }
}

/// The wallet with the limits that are given replaced.
pub open spec fn with_limits(w: AgentWallet, spending: Option<u64>, daily: Option<u64>) -> AgentWallet {
    AgentWallet {
        spending_limit: match spending {
            Some(l) => l,
            None => w.spending_limit,
        },
        daily_limit: match daily {
            Some(l) => l,
            None => w.daily_limit,
        },
        ..w
    }
}

/// `w` is the wallet that `initialize` creates.
pub open spec fn is_fresh_wallet(
    w: AgentWallet,
    owner: Identity,
    agent_authority: Identity,
    spending_limit: u64,
    daily_limit: u64,
    now: i64,
    bump: u8,
) -> bool {
    &&& w.owner == owner
    &&& w.agent_authority == agent_authority
    &&& w.spending_limit == spending_limit
    &&& w.daily_limit == daily_limit
    &&& w.daily_spent == 0
    &&& w.last_reset_timestamp == now
    &&& w.nonce == 0
    &&& w.operators@ == Seq::<Identity>::empty()
    &&& w.bump == bump
}

/// Creates the wallet of `owner` at the address derived from the owner's
/// identity, with an empty window that starts at `now` and no operators.
/// One wallet per owner follows from that address: the host refuses to create
/// an account twice.
pub fn initialize(
    owner: Identity,
    agent_authority: Identity,
    spending_limit: u64,
    daily_limit: u64,
    now: i64,
    program_id: &Identity,
) -> (r: Result<(AgentWallet, WalletInitialized), ErrorCode>)
    ensures
        match wallet_address_spec(owner, *program_id) {
            None => r == Err::<(AgentWallet, WalletInitialized), ErrorCode>(
                ErrorCode::AddressUnavailable,
            ),
            Some((key, bump)) => match r {
                Ok((w, ev)) => {
                    &&& is_fresh_wallet(w, owner, agent_authority, spending_limit, daily_limit, now, bump)
                    &&& w.operators_wf()
                    &&& w.within_cap()
                    &&& ev.wallet@ == key
                    &&& ev.owner == owner
                    &&& ev.spending_limit == spending_limit
                    &&& ev.daily_limit == daily_limit
                },
                Err(_) => false,
            },
        },
{
    match wallet_address(&owner, program_id) {
        None => Err(ErrorCode::AddressUnavailable),
        Some((key, bump)) => {
            let w = AgentWallet {
                owner,
                agent_authority,
                spending_limit,
                daily_limit,
                daily_spent: 0,
                last_reset_timestamp: now,
                nonce: 0,
                operators: Vec::new(),
                bump,
            };
            let ev = WalletInitialized { wallet: key, owner, spending_limit, daily_limit };
            Ok((w, ev))
        },
    }
}

/// Starts a new window at `now` if the current one is over: the spend goes
/// back to 0. Applying it twice at one `now` is the same as once.
pub fn rollover_if_due(wallet: &mut AgentWallet, now: i64)
    ensures
        *final(wallet) == rolled_over(*old(wallet), now),
        wallet_step(*old(wallet), *final(wallet)),
{
    if rollover_due(wallet.last_reset_timestamp, now) {
        wallet.daily_spent = 0;
        wallet.last_reset_timestamp = now;
    }
    assert(*wallet == rolled_over(*old(wallet), now));
}

/// Whether `who` is among the wallet's operators.
pub fn is_operator(wallet: &AgentWallet, who: &Identity) -> (r: bool)
    ensures
        r == wallet.operators@.contains(*who),
{
    let mut i: usize = 0;
    while i < wallet.operators.len()
        invariant
            0 <= i <= wallet.operators@.len(),
            forall|j: int| 0 <= j < i ==> wallet.operators@[j] != *who,
        decreases wallet.operators@.len() - i,
    {
        if same_identity(&wallet.operators[i], who) {
            return true;
        }
        i = i + 1;
    }
    false
}

/// Delegates `operator` on the wallet. Only the owner may; an identity that is
/// already an operator is refused, and so is one more than `MAX_OPERATORS`.
pub fn add_operator(
    wallet: &mut AgentWallet,
    wallet_key: Identity,
    caller: &Identity,
    operator: Identity,
) -> (r: Result<OperatorAdded, ErrorCode>)
    ensures
        *caller != old(wallet).owner ==> r == Err::<OperatorAdded, ErrorCode>(
            ErrorCode::NotAuthorized,
        ),
        *caller == old(wallet).owner && old(wallet).operators@.contains(operator) ==> r == Err::<
            OperatorAdded,
            ErrorCode,
        >(ErrorCode::OperatorAlreadyExists),
        *caller == old(wallet).owner && !old(wallet).operators@.contains(operator)
            && old(wallet).operators@.len() >= MAX_OPERATORS ==> r == Err::<
            OperatorAdded,
            ErrorCode,
        >(ErrorCode::TooManyOperators),
        r is Ok <==> *caller == old(wallet).owner && !old(wallet).operators@.contains(operator)
            && old(wallet).operators@.len() < MAX_OPERATORS,
        r is Err ==> *final(wallet) == *old(wallet),
        r is Ok ==> {
            &&& *caller == old(wallet).owner
            &&& !old(wallet).operators@.contains(operator)
            &&& old(wallet).operators@.len() < MAX_OPERATORS
            &&& final(wallet).operators@ == old(wallet).operators@.push(operator)
            &&& same_but_operators(*old(wallet), *final(wallet))
            &&& r->Ok_0.wallet == wallet_key
            &&& r->Ok_0.operator == operator
        },
        old(wallet).operators_wf() ==> final(wallet).operators_wf(),
        wallet_step(*old(wallet), *final(wallet)),
{
    if !same_identity(caller, &wallet.owner) {
        return Err(ErrorCode::NotAuthorized);
    }
    if is_operator(wallet, &operator) {
        return Err(ErrorCode::OperatorAlreadyExists);
    }
    if wallet.operators.len() >= MAX_OPERATORS {
        return Err(ErrorCode::TooManyOperators);
    }
    wallet.operators.push(operator);
    proof {
        let s = old(wallet).operators@;
        let t = wallet.operators@;
        if s.no_duplicates() {
            assert forall|i: int, j: int| 0 <= i < t.len() && 0 <= j < t.len() && i != j implies t[i]
                != t[j] by {
                if i < s.len() && j < s.len() {
                } else if i == s.len() {
                    assert(t[j] == s[j]);
                    if s[j] == operator {
                        assert(s.contains(operator));
                    }
                } else if j == s.len() {
                    assert(t[i] == s[i]);
                    if s[i] == operator {
                        assert(s.contains(operator));
                    }
                } else {
                    assert(t[i] == s[i]);
                }
            }
        }
    }
    Ok(OperatorAdded { wallet: wallet_key, operator })
}

/// Takes `operator` out of the wallet's operators. Only the owner may; taking
/// out an identity that is not there changes nothing and is no error.
pub fn remove_operator(
    wallet: &mut AgentWallet,
    wallet_key: Identity,
    caller: &Identity,
    operator: Identity,
) -> (r: Result<OperatorRemoved, ErrorCode>)
    ensures
        *caller != old(wallet).owner ==> r == Err::<OperatorRemoved, ErrorCode>(
            ErrorCode::NotAuthorized,
        ),
        *caller == old(wallet).owner <==> r is Ok,
        r is Err ==> *final(wallet) == *old(wallet),
        r is Ok ==> {
            &&& final(wallet).operators@ == old(wallet).operators@.filter(others(operator))
            &&& same_but_operators(*old(wallet), *final(wallet))
            &&& r->Ok_0.wallet == wallet_key
            &&& r->Ok_0.operator == operator
        },
        r is Ok && !old(wallet).operators@.contains(operator) ==> final(wallet).operators@
            == old(wallet).operators@,
        old(wallet).operators_wf() ==> final(wallet).operators_wf(),
        wallet_step(*old(wallet), *final(wallet)),
{
    if !same_identity(caller, &wallet.owner) {
        return Err(ErrorCode::NotAuthorized);
    }
    let ghost s = wallet.operators@;
    let mut kept: Vec<Identity> = Vec::new();
    let mut i: usize = 0;
    while i < wallet.operators.len()
        invariant
            0 <= i <= s.len(),
            s == wallet.operators@,
            kept@ == s.subrange(0, i as int).filter(others(operator)),
            s.no_duplicates() ==> kept@.no_duplicates(),
        decreases s.len() - i,
    {
        let x = wallet.operators[i];
        proof {
            assert(s.subrange(0, i + 1) =~= s.subrange(0, i as int).push(x));
            s.subrange(0, i as int).lemma_filter_push(x, others(operator));
            assert(others(operator)(x) == (x != operator));
        }
        if !same_identity(&x, &operator) {
            proof {
                if s.no_duplicates() {
                    if kept@.contains(x) {
                        let k = choose|k: int| 0 <= k < kept@.len() && kept@[k] == x;
                        s.subrange(0, i as int).lemma_filter_contains_rev(others(operator), x);
                        let j = choose|j: int| 0 <= j < i && s.subrange(0, i as int)[j] == x;
                        assert(s[j] == s[i as int]);
                    }
                }
            }
            kept.push(x);
        }
        i = i + 1;
    }
    proof {
        assert(s.subrange(0, s.len() as int) == s);
        s.lemma_filter_len(others(operator));
        if !s.contains(operator) {
            assert forall|k: int| 0 <= k < s.len() implies others(operator)(s[k]) by {}
            lemma_filter_all(s, others(operator));
        }
    }
    wallet.operators = kept;
    Ok(OperatorRemoved { wallet: wallet_key, operator })
}

proof fn lemma_filter_all(s: Seq<Identity>, keep: spec_fn(Identity) -> bool)
    requires
        forall|k: int| 0 <= k < s.len() ==> keep(s[k]),
    ensures
        s.filter(keep) == s,
    decreases s.len(),
{
    reveal(Seq::filter);
    if s.len() > 0 {
        lemma_filter_all(s.drop_last(), keep);
    }
    assert(s.filter(keep) =~= s);
}

/// Replaces the limits that are given and keeps the others. Only the owner may.
/// Nothing bounds the new values: a limit of 0 freezes spending.
pub fn update_limits(
    wallet: &mut AgentWallet,
    caller: &Identity,
    new_spending_limit: Option<u64>,
    new_daily_limit: Option<u64>,
) -> (r: Result<(), ErrorCode>)
    ensures
        *caller != old(wallet).owner ==> r == Err::<(), ErrorCode>(ErrorCode::NotAuthorized),
        *caller == old(wallet).owner <==> r is Ok,
        r is Err ==> *final(wallet) == *old(wallet),
        r is Ok ==> *final(wallet) == with_limits(*old(wallet), new_spending_limit, new_daily_limit),
        (new_daily_limit matches Some(l) ==> old(wallet).daily_spent <= l) ==> wallet_step(
            *old(wallet),
            *final(wallet),
        ),
{
    if !same_identity(caller, &wallet.owner) {
        return Err(ErrorCode::NotAuthorized);
    }
    if let Some(limit) = new_spending_limit {
        wallet.spending_limit = limit;
    }
    if let Some(limit) = new_daily_limit {
        wallet.daily_limit = limit;
    }
    assert(*wallet == with_limits(*old(wallet), new_spending_limit, new_daily_limit));
    Ok(())
}

} // verus!
