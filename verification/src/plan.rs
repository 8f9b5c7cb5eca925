use vstd::prelude::*;
use crate::error::Error;
use crate::model::StorageView;
use crate::storage::Storage;
use crate::types::{Address, ContentHash, KBStatsResult, PlanId, PlanMeta, StorageTier};

verus! {

/// Files a new plan: stores it, lists its fingerprint, appends it to its
/// contributor's plans, counts it, and starts its retention window. Refused,
/// with nothing changed, with `DuplicateContent` where the fingerprint is
/// listed already, whatever the identifier, and with `DuplicateId` where a
/// plan is stored under the identifier: a stored plan is never replaced.
pub fn save_plan(storage: &mut Storage, plan: &PlanMeta, sequence: u32) -> (result: Result<
    (),
    Error,
>)
    requires
        old(storage).wf(),
        old(storage)@.save_plan(plan@, sequence) is Ok ==> old(storage)@.stats.total_plans
            < u32::MAX,
    ensures
        final(storage).wf(),
        match result {
            Ok(()) => old(storage)@.save_plan(plan@, sequence) == Ok::<StorageView, Error>(
                final(storage)@,
            ),
            Err(error) => old(storage)@.save_plan(plan@, sequence) == Err::<StorageView, Error>(
                error,
            ) && final(storage)@ == old(storage)@,
        },
{
    if storage.has_content(&plan.content_hash) {
        return Err(Error::DuplicateContent);
    }
    if storage.has_plan(&plan.id) {
        return Err(Error::DuplicateId);
    }
    storage.set_plan(plan.clone());
    storage.mark_content(plan.content_hash);
    storage.push_contributor_plan(&plan.contributor, plan.id);
    let stats = storage.stats();
    storage.set_stats(
        KBStatsResult {
            total_plans: stats.total_plans + 1,
            total_purchases: stats.total_purchases,
        },
    );
    storage.extend_ttl(&plan.id, sequence, plan.tier);
    Ok(())
}

/// A copy of the plan stored under `plan_id`; none where the identifier is
/// unknown.
pub fn get_plan(storage: &Storage, plan_id: &PlanId) -> (found: Option<PlanMeta>)
    requires
        storage.wf(),
    ensures
        match found {
            Some(plan) => storage@.plan(*plan_id) == Some(plan@),
            None => storage@.plan(*plan_id) is None,
        },
{
    storage.get_plan(plan_id)
}

/// Whether a plan with this fingerprint has been published.
pub fn content_exists(storage: &Storage, content_hash: &ContentHash) -> (exists: bool)
    ensures
        exists == storage@.content.contains(*content_hash),
{
    storage.has_content(content_hash)
}

/// The plans `contributor` has published, oldest first; empty for a
/// contributor who never published.
pub fn get_contributor_plans(storage: &Storage, contributor: &Address) -> (ids: Vec<PlanId>)
    requires
        storage.wf(),
    ensures
        ids@ == storage@.plan_ids_of(*contributor),
{
    storage.get_contributor_plans(contributor)
}

/// Rewrites a plan's record and refreshes its retention for the tier it is in.
pub fn update_plan(storage: &mut Storage, plan: &PlanMeta, sequence: u32)
    requires
        old(storage).wf(),
    ensures
        final(storage).wf(),
        final(storage)@ == old(storage)@.update_plan(plan@, sequence),
{
    storage.set_plan(plan.clone());
    storage.extend_ttl(&plan.id, sequence, plan.tier);
}

/// Refreshes the retention of the plan under `plan_id` for `tier`: it is kept
/// at least a full window of that tier from ledger `sequence`, and no shorter
/// than already promised. Nothing changes where no such plan is stored.
pub fn bump_ttl(storage: &mut Storage, plan_id: &PlanId, tier: &StorageTier, sequence: u32)
    requires
        old(storage).wf(),
    ensures
        final(storage).wf(),
        final(storage)@ == old(storage)@.bump_ttl(*plan_id, sequence, *tier),
{
    storage.extend_ttl(plan_id, sequence, *tier);
}

} // verus!
