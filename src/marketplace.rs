use vstd::prelude::*;

use crate::identity::Identity;

verus! {

/// Stake needed to list an agent: 100 tokens of 9 decimals.
pub const MINIMUM_STAKE: u64 = 100_000_000_000;

/// Stake at which a listing is premium: 1000 tokens of 9 decimals.
pub const PREMIUM_STAKE: u64 = 1_000_000_000_000;

/// Reputation of a new listing.
pub const BASE_REPUTATION: u64 = 100;

/// Top of the reputation scale.
pub const MAX_REPUTATION: u64 = 500;

/// Longest name, in bytes.
pub const MAX_NAME_LEN: usize = 50;

/// Longest description, in bytes.
pub const MAX_DESCRIPTION_LEN: usize = 200;

/// Why a marketplace operation was rejected. A rejected operation changes
/// nothing.
#[derive(Clone, Copy, Debug, PartialEq, Eq, Structural)]
pub enum ErrorCode {
    InsufficientStake,
    NameTooLong,
    DescriptionTooLong,
    AgentNotActive,
}

/// The marketplace's settings and its count of listings.
#[derive(Clone, Copy, Debug)]
pub struct Marketplace {
    pub authority: Identity,
    pub stake_token: Identity,
    pub minimum_stake: u64,
    pub premium_stake: u64,
    pub total_agents: u64,
    pub bump: u8,
}

/// An agent offered on the marketplace, with its stake and task record.
#[derive(Clone, Debug)]
pub struct AgentListing {
    pub marketplace: Identity,
    pub owner: Identity,
    pub name: String,
    pub description: String,
    pub category: String,
    pub staked_amount: u64,
    pub total_tasks: u64,
    pub successful_tasks: u64,
    pub reputation: u64,
    pub is_active: bool,
    pub is_premium: bool,
    pub bump: u8,
}

impl AgentListing {
    /// No more successes than tasks.
    pub open spec fn tasks_wf(&self) -> bool {
        self.successful_tasks <= self.total_tasks
    }
}

/// An agent was listed.
#[derive(Clone, Debug)]
pub struct AgentListed {
    pub listing: Identity,
    pub owner: Identity,
    pub name: String,
    pub staked_amount: u64,
}

/// A task of a listing was recorded.
#[derive(Clone, Copy, Debug)]
pub struct TaskRecorded {
    pub listing: Identity,
    pub success: bool,
    pub new_reputation: u64,
}

/// A listing was deactivated.
#[derive(Clone, Copy, Debug)]
pub struct AgentDeactivated {
    pub listing: Identity,
}

/// Length of the UTF-8 encoding of `s`, as `str::len` gives it.
pub open spec fn utf8_len(s: Seq<char>) -> usize {
    vstd::utf8::encode_utf8(s).len() as usize
}

/// Reputation on the 0..=500 scale: the share of successful tasks.
pub open spec fn reputation_of(successful: u64, total: u64) -> int {
    (successful as int * MAX_REPUTATION as int) / (total as int)
}

/// The verdict on a listing request.
pub open spec fn listing_check(m: Marketplace, name: Seq<char>, description: Seq<char>, stake: u64) -> Result<(), ErrorCode> {
    if stake < m.minimum_stake {
        Err(ErrorCode::InsufficientStake)
    } else if utf8_len(name) > MAX_NAME_LEN {
        Err(ErrorCode::NameTooLong)
    } else if utf8_len(description) > MAX_DESCRIPTION_LEN {
        Err(ErrorCode::DescriptionTooLong)
    } else {
        Ok(())
    }
}

/// A new marketplace with no listings and the standard stake thresholds.
pub fn initialize(authority: Identity, stake_token: Identity, bump: u8) -> (m: Marketplace)
    ensures
        m.authority == authority,
        m.stake_token == stake_token,
        m.minimum_stake == MINIMUM_STAKE,
        m.premium_stake == PREMIUM_STAKE,
        m.total_agents == 0,
        m.bump == bump,
{
    Marketplace {
        authority,
        stake_token,
        minimum_stake: MINIMUM_STAKE,
        premium_stake: PREMIUM_STAKE,
        total_agents: 0,
        bump,
    }
}

/// Lists an agent of `owner` against a stake of `stake_amount`, which the
/// caller moves into the marketplace's vault. The stake must reach the
/// minimum, the name and the description must fit their bounds; a stake that
/// reaches the premium threshold makes the listing premium.
pub fn list_agent(
    marketplace: &mut Marketplace,
    marketplace_key: Identity,
    listing_key: Identity,
    owner: Identity,
    name: String,
    description: String,
    category: String,
    stake_amount: u64,
    bump: u8,
) -> (r: Result<(AgentListing, AgentListed), ErrorCode>)
    requires
        old(marketplace).total_agents < u64::MAX,
    ensures
        listing_check(*old(marketplace), name@, description@, stake_amount) is Err ==> r == Err::<
            (AgentListing, AgentListed),
            ErrorCode,
        >(listing_check(*old(marketplace), name@, description@, stake_amount)->Err_0),
        r is Err ==> *final(marketplace) == *old(marketplace),
        listing_check(*old(marketplace), name@, description@, stake_amount) is Ok ==> (r matches Ok((l, ev)) && {
            &&& l.marketplace == marketplace_key
            &&& l.owner == owner
            &&& l.name@ == name@
            &&& l.description@ == description@
            &&& l.category@ == category@
            &&& l.staked_amount == stake_amount
            &&& l.total_tasks == 0
            &&& l.successful_tasks == 0
            &&& l.reputation == BASE_REPUTATION
            &&& l.is_active
            &&& l.is_premium == (stake_amount >= old(marketplace).premium_stake)
            &&& l.bump == bump
            &&& ev.listing == listing_key
            &&& ev.owner == owner
            &&& ev.name@ == name@
            &&& ev.staked_amount == stake_amount
            &&& *final(marketplace) == (Marketplace {
                total_agents: (old(marketplace).total_agents + 1) as u64,
                ..*old(marketplace)
            })
        }),
{
    if stake_amount < marketplace.minimum_stake {
        return Err(ErrorCode::InsufficientStake);
    }
    let name_len = name.as_str().len();
    assert(name_len == utf8_len(name@));
    if name_len > MAX_NAME_LEN {
        return Err(ErrorCode::NameTooLong);
    }
    let description_len = description.as_str().len();
    assert(description_len == utf8_len(description@));
    if description_len > MAX_DESCRIPTION_LEN {
        return Err(ErrorCode::DescriptionTooLong);
    }
    let is_premium = stake_amount >= marketplace.premium_stake;
    let ev = AgentListed {
        listing: listing_key,
        owner,
        name: name.clone(),
        staked_amount: stake_amount,
    };
    let listing = AgentListing {
        marketplace: marketplace_key,
        owner,
        name,
        description,
        category,
        staked_amount: stake_amount,
        total_tasks: 0,
        successful_tasks: 0,
        reputation: BASE_REPUTATION,
        is_active: true,
        is_premium,
        bump,
    };
    marketplace.total_agents = marketplace.total_agents + 1;
    Ok((listing, ev))
}

/// Records one more task of the listing, successful or not, and sets its
/// reputation to the share of successful tasks on the 0..=500 scale.
pub fn record_task(listing: &mut AgentListing, listing_key: Identity, success: bool) -> (ev: TaskRecorded)
    requires
        old(listing).tasks_wf(),
        old(listing).total_tasks < u64::MAX,
    ensures
        final(listing).total_tasks == old(listing).total_tasks + 1,
        final(listing).successful_tasks == old(listing).successful_tasks + if success {
            1int
        } else {
            0int
        },
        final(listing).reputation == reputation_of(
            final(listing).successful_tasks,
            final(listing).total_tasks,
        ),
        final(listing).reputation <= MAX_REPUTATION,
        final(listing).tasks_wf(),
        final(listing).staked_amount == old(listing).staked_amount,
        final(listing).is_active == old(listing).is_active,
        final(listing).is_premium == old(listing).is_premium,
        final(listing).owner == old(listing).owner,
        ev.listing == listing_key,
        ev.success == success,
        ev.new_reputation == final(listing).reputation,
{
    listing.total_tasks = listing.total_tasks + 1;
    if success {
        listing.successful_tasks = listing.successful_tasks + 1;
    }
    let s = listing.successful_tasks as u128;
    let t = listing.total_tasks as u128;
    let rep = s * 500 / t;
    proof {
        let si = s as int;
        let ti = t as int;
        assert(si * 500 <= ti * 500) by (nonlinear_arith)
            requires
                si <= ti,
        ;
        assert((si * 500) / ti <= 500) by (nonlinear_arith)
            requires
                si * 500 <= ti * 500,
                ti > 0,
        ;
    }
    listing.reputation = rep as u64;
    TaskRecorded { listing: listing_key, success, new_reputation: listing.reputation }
}

/// Adds `amount`, which the owner moves into the vault, to the listing's stake;
/// reaching the premium threshold makes the listing premium, and a premium
/// listing stays premium.
pub fn increase_stake(marketplace: &Marketplace, listing: &mut AgentListing, amount: u64)
    requires
        old(listing).staked_amount as int + amount as int <= u64::MAX as int,
    ensures
        final(listing).staked_amount == old(listing).staked_amount + amount,
        final(listing).is_premium == (old(listing).is_premium || final(listing).staked_amount
            >= marketplace.premium_stake),
        final(listing).total_tasks == old(listing).total_tasks,
        final(listing).successful_tasks == old(listing).successful_tasks,
        final(listing).reputation == old(listing).reputation,
        final(listing).is_active == old(listing).is_active,
        final(listing).owner == old(listing).owner,
{
    listing.staked_amount = listing.staked_amount + amount;
    if listing.staked_amount >= marketplace.premium_stake {
        listing.is_premium = true;
    }
}

/// Deactivates an active listing and hands back the stake to return to its
/// owner from the vault, under the marketplace's derived authority.
pub fn deactivate_agent(listing: &mut AgentListing, listing_key: Identity) -> (r: Result<(u64, AgentDeactivated), ErrorCode>)
    ensures
        !old(listing).is_active ==> r == Err::<(u64, AgentDeactivated), ErrorCode>(
            ErrorCode::AgentNotActive,
        ),
        old(listing).is_active <==> r is Ok,
        r is Err ==> *final(listing) == *old(listing),
        r is Ok ==> {
            &&& r->Ok_0.0 == old(listing).staked_amount
            &&& r->Ok_0.1.listing == listing_key
            &&& !final(listing).is_active
            &&& final(listing).staked_amount == old(listing).staked_amount
            &&& final(listing).total_tasks == old(listing).total_tasks
            &&& final(listing).reputation == old(listing).reputation
            &&& final(listing).owner == old(listing).owner
        },
{
    if !listing.is_active {
        return Err(ErrorCode::AgentNotActive);
    }
    listing.is_active = false;
    Ok((listing.staked_amount, AgentDeactivated { listing: listing_key }))
}

} // verus!
