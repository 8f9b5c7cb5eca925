use vstd::prelude::*;
use crate::types::{clone_tags, texts, Address, ContentHash, PlanId, StorageTier};

verus! {

/// A notification for observers outside the marketplace.
#[derive(Debug, PartialEq, Eq)]
pub enum Event {
    /// A plan was published.
    PlanStored {
        plan_id: PlanId,
        content_hash: ContentHash,
        contributor: Address,
        title: String,
        tags: Vec<String>,
        ipfs_cid: String,
        tier: StorageTier,
    },
    /// A plan was bought.
    PlanPurchased { plan_id: PlanId, buyer: Address, amount: i128, contributor: Address },
    /// A plan moved to another tier.
    TierChanged { plan_id: PlanId, old_tier: StorageTier, new_tier: StorageTier },
}

/// Mathematical value of an [`Event`].
pub enum EventView {
    PlanStored {
        plan_id: PlanId,
        content_hash: ContentHash,
        contributor: Address,
        title: Seq<char>,
        tags: Seq<Seq<char>>,
        ipfs_cid: Seq<char>,
        tier: StorageTier,
    },
    PlanPurchased { plan_id: PlanId, buyer: Address, amount: i128, contributor: Address },
    TierChanged { plan_id: PlanId, old_tier: StorageTier, new_tier: StorageTier },
}

impl View for Event {
    type V = EventView;

    open spec fn view(&self) -> EventView {
        match *self {
            Event::PlanStored { plan_id, content_hash, contributor, title, tags, ipfs_cid, tier } => {
                EventView::PlanStored {
                    plan_id,
                    content_hash,
                    contributor,
                    title: title@,
                    tags: texts(tags@),
                    ipfs_cid: ipfs_cid@,
                    tier,
                }
            },
            Event::PlanPurchased { plan_id, buyer, amount, contributor } => {
                EventView::PlanPurchased { plan_id, buyer, amount, contributor }
            },
            Event::TierChanged { plan_id, old_tier, new_tier } => {
                EventView::TierChanged { plan_id, old_tier, new_tier }
            },
        }
    }
}

/// The values of a log of events, oldest first.
pub open spec fn event_views(log: Seq<Event>) -> Seq<EventView> {
    Seq::new(log.len(), |i: int| log[i]@)
}

/// Appending an event to a log appends its value to the log's values.
pub proof fn lemma_event_views_push(log: Seq<Event>, event: Event)
    ensures
        event_views(log.push(event)) == event_views(log).push(event@),
{
    assert(event_views(log.push(event)) =~= event_views(log).push(event@));
}

/// Records that a plan was published.
pub fn emit_plan_stored(
    log: &mut Vec<Event>,
    plan_id: &PlanId,
    content_hash: &ContentHash,
    contributor: &Address,
    title: &String,
    tags: &Vec<String>,
    ipfs_cid: &String,
    tier: &StorageTier,
)
    ensures
        event_views(final(log)@) == event_views(old(log)@).push(
            EventView::PlanStored {
                plan_id: *plan_id,
                content_hash: *content_hash,
                contributor: *contributor,
                title: title@,
                tags: texts(tags@),
                ipfs_cid: ipfs_cid@,
                tier: *tier,
            },
        ),
{
    let event = Event::PlanStored {
        plan_id: *plan_id,
        content_hash: *content_hash,
        contributor: *contributor,
        title: title.clone(),
        tags: clone_tags(tags),
        ipfs_cid: ipfs_cid.clone(),
        tier: *tier,
    };
    proof {
        lemma_event_views_push(log@, event);
    }
    log.push(event);
}

/// Records that a plan was bought.
pub fn emit_plan_purchased(
    log: &mut Vec<Event>,
    plan_id: &PlanId,
    buyer: &Address,
    amount: i128,
    contributor: &Address,
)
    ensures
        event_views(final(log)@) == event_views(old(log)@).push(
            EventView::PlanPurchased {
                plan_id: *plan_id,
                buyer: *buyer,
                amount: amount,
                contributor: *contributor,
            },
        ),
{
    let event = Event::PlanPurchased {
        plan_id: *plan_id,
        buyer: *buyer,
        amount: amount,
        contributor: *contributor,
    };
    proof {
        lemma_event_views_push(log@, event);
    }
    log.push(event);
}

/// Records that a plan moved from one tier to another.
pub fn emit_tier_changed(
    log: &mut Vec<Event>,
    plan_id: &PlanId,
    old_tier: &StorageTier,
    new_tier: &StorageTier,
)
    ensures
        event_views(final(log)@) == event_views(old(log)@).push(
            EventView::TierChanged { plan_id: *plan_id, old_tier: *old_tier, new_tier: *new_tier },
        ),
{
    let event = Event::TierChanged { plan_id: *plan_id, old_tier: *old_tier, new_tier: *new_tier };
    proof {
        lemma_event_views_push(log@, event);
    }
    log.push(event);
}

} // verus!
