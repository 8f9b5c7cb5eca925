use vstd::prelude::*;
use crate::error::Error;
use crate::keyed::{
    key_map, lemma_key_map_absent, lemma_key_map_at, lemma_key_map_push, lemma_key_map_update,
};
use crate::model::StorageView;
use crate::retention::extend;
use crate::types::{
    same_bytes, Address, Config, ContentHash, KBStatsResult, PlanId, PlanMeta, PlanMetaView,
    PurchaseRecord, StorageTier,
};

verus! {

#[derive(Debug)]
struct PlanEntry {
    plan: PlanMeta,
    live_until: u64,
}

#[derive(Debug)]
struct ContributorEntry {
    contributor: Address,
    plan_ids: Vec<PlanId>,
}

#[derive(Debug)]
struct PurchaseEntry {
    plan_id: PlanId,
    records: Vec<PurchaseRecord>,
}

/// The marketplace's store: one typed collection for each kind of record.
#[derive(Debug)]
pub struct Storage {
    config: Option<Config>,
    stats: KBStatsResult,
    plans: Vec<PlanEntry>,
    content: Vec<ContentHash>,
    contributors: Vec<ContributorEntry>,
    purchases: Vec<PurchaseEntry>,
}

spec fn plan_keys(entries: Seq<PlanEntry>) -> Seq<PlanId> {
    Seq::new(entries.len(), |i: int| entries[i].plan.id)
}

spec fn plan_values(entries: Seq<PlanEntry>) -> Seq<PlanMetaView> {
    Seq::new(entries.len(), |i: int| entries[i].plan@)
}

spec fn plan_ttls(entries: Seq<PlanEntry>) -> Seq<u64> {
    Seq::new(entries.len(), |i: int| entries[i].live_until)
}

spec fn contributor_keys(entries: Seq<ContributorEntry>) -> Seq<Address> {
    Seq::new(entries.len(), |i: int| entries[i].contributor)
}

spec fn contributor_values(entries: Seq<ContributorEntry>) -> Seq<Seq<PlanId>> {
    Seq::new(entries.len(), |i: int| entries[i].plan_ids@)
}

spec fn purchase_keys(entries: Seq<PurchaseEntry>) -> Seq<PlanId> {
    Seq::new(entries.len(), |i: int| entries[i].plan_id)
}

spec fn purchase_values(entries: Seq<PurchaseEntry>) -> Seq<Seq<PurchaseRecord>> {
    Seq::new(entries.len(), |i: int| entries[i].records@)
}

impl View for Storage {
    type V = StorageView;

    closed spec fn view(&self) -> StorageView {
        StorageView {
            config: self.config,
            stats: self.stats,
            plans: key_map(plan_keys(self.plans@), plan_values(self.plans@)),
            live_until: key_map(plan_keys(self.plans@), plan_ttls(self.plans@)),
            content: self.content@.to_set(),
            contributor_plans: key_map(
                contributor_keys(self.contributors@),
                contributor_values(self.contributors@),
            ),
            purchases: key_map(purchase_keys(self.purchases@), purchase_values(self.purchases@)),
        }
    }
}

impl Storage {
    /// Whether the store is well formed: no key is filed twice in any
    /// collection, and the configured share is a percentage.
    pub closed spec fn wf(&self) -> bool {
        &&& self.config matches Some(config) ==> config.contributor_share_pct <= 100
        &&& plan_keys(self.plans@).no_duplicates()
        &&& contributor_keys(self.contributors@).no_duplicates()
        &&& purchase_keys(self.purchases@).no_duplicates()
    }

    /// A well-formed store stands for a valid state.
    pub proof fn lemma_valid(&self)
        requires
            self.wf(),
        ensures
            self@.valid(),
    {
        let keys = plan_keys(self.plans@);
        assert forall|id: PlanId| #[trigger] self@.plans.dom().contains(id) implies self@.plans[id].id
            == id by {
            let i = keys.index_of(id);
            assert(keys[i] == id);
        }
        assert(self@.live_until.dom() =~= self@.plans.dom());
    }

    /// An empty store that has not been set up.
    pub fn new() -> (storage: Storage)
        ensures
            storage.wf(),
            storage@ == StorageView::empty(),
    {
        let storage = Storage {
            config: None,
            stats: KBStatsResult { total_plans: 0, total_purchases: 0 },
            plans: Vec::new(),
            content: Vec::new(),
            contributors: Vec::new(),
            purchases: Vec::new(),
        };
        assert(storage@.plans =~= Map::empty());
        assert(storage@.live_until =~= Map::empty());
        assert(storage@.content =~= Set::empty());
        assert(storage@.contributor_plans =~= Map::empty());
        assert(storage@.purchases =~= Map::empty());
        storage
    }

    /// The settings, once the store has been set up.
    pub fn config(&self) -> (config: Option<Config>)
        ensures
            config == self@.config,
    {
        self.config
    }

    /// The running totals.
    pub fn stats(&self) -> (stats: KBStatsResult)
        ensures
            stats == self@.stats,
    {
        self.stats
    }

    /// Writes the settings. Refused with `InvalidPercentage`, and nothing is
    /// written, where the share is above one hundred.
    pub fn set_config(&mut self, config: Config) -> (result: Result<(), Error>)
        requires
            old(self).wf(),
        ensures
            final(self).wf(),
            config.contributor_share_pct > 100 ==> result == Err::<(), Error>(
                Error::InvalidPercentage,
            ) && final(self)@ == old(self)@,
            config.contributor_share_pct <= 100 ==> result == Ok::<(), Error>(()) && final(self)@
                == (StorageView { config: Some(config), ..old(self)@ }),
    {
        if config.contributor_share_pct > 100 {
            return Err(Error::InvalidPercentage);
        }
        self.config = Some(config);
        Ok(())
    }

    /// Replaces the running totals.
    pub fn set_stats(&mut self, stats: KBStatsResult)
        requires
            old(self).wf(),
        ensures
            final(self).wf(),
            final(self)@ == (StorageView { stats: stats, ..old(self)@ }),
    {
        self.stats = stats;
    }

    fn find_plan(&self, id: &PlanId) -> (found: Option<usize>)
        ensures
            match found {
                Some(i) => i < self.plans.len() && plan_keys(self.plans@)[i as int] == *id,
                None => !plan_keys(self.plans@).contains(*id),
            },
    {
        let mut i: usize = 0;
        while i < self.plans.len()
            invariant
                i <= self.plans.len(),
                forall|j: int| 0 <= j < i ==> plan_keys(self.plans@)[j] != *id,
            decreases self.plans.len() - i,
        {
            if same_bytes(&self.plans[i].plan.id, id) {
                return Some(i);
            }
            i += 1;
        }
        None
    }

    fn find_contributor(&self, contributor: &Address) -> (found: Option<usize>)
        ensures
            match found {
                Some(i) => i < self.contributors.len() && contributor_keys(
                    self.contributors@,
                )[i as int] == *contributor,
                None => !contributor_keys(self.contributors@).contains(*contributor),
            },
    {
        let mut i: usize = 0;
        while i < self.contributors.len()
            invariant
                i <= self.contributors.len(),
                forall|j: int| 0 <= j < i ==> contributor_keys(self.contributors@)[j] != *contributor,
            decreases self.contributors.len() - i,
        {
            if self.contributors[i].contributor.same(contributor) {
                return Some(i);
            }
            i += 1;
        }
        None
    }

    fn find_purchases(&self, id: &PlanId) -> (found: Option<usize>)
        ensures
            match found {
                Some(i) => i < self.purchases.len() && purchase_keys(self.purchases@)[i as int]
                    == *id,
                None => !purchase_keys(self.purchases@).contains(*id),
            },
    {
        let mut i: usize = 0;
        while i < self.purchases.len()
            invariant
                i <= self.purchases.len(),
                forall|j: int| 0 <= j < i ==> purchase_keys(self.purchases@)[j] != *id,
            decreases self.purchases.len() - i,
        {
            if same_bytes(&self.purchases[i].plan_id, id) {
                return Some(i);
            }
            i += 1;
        }
        None
    }

    /// Whether a plan is stored under `id`.
    pub fn has_plan(&self, id: &PlanId) -> (present: bool)
        ensures
            present == self@.plans.dom().contains(*id),
    {
        self.find_plan(id).is_some()
    }

    /// A copy of the plan stored under `id`, if there is one.
    pub fn get_plan(&self, id: &PlanId) -> (found: Option<PlanMeta>)
        requires
            self.wf(),
        ensures
            match found {
                Some(plan) => self@.plan(*id) == Some(plan@),
                None => self@.plan(*id) is None,
            },
    {
        match self.find_plan(id) {
            Some(i) => {
                proof {
                    lemma_key_map_at(plan_keys(self.plans@), plan_values(self.plans@), i as int);
                }
                Some(self.plans[i].plan.clone())
            },
            None => None,
        }
    }

    /// The ledger until which the plan under `id` is promised to be kept; zero
    /// where no such plan is stored.
    pub fn live_until(&self, id: &PlanId) -> (until: u64)
        requires
            self.wf(),
        ensures
            until == self@.live_until_of(*id),
    {
        match self.find_plan(id) {
            Some(i) => {
                proof {
                    lemma_key_map_at(plan_keys(self.plans@), plan_ttls(self.plans@), i as int);
                }
                self.plans[i].live_until
            },
            None => 0,
        }
    }

    /// Writes `plan` under its identifier, over whatever was there.
    pub fn set_plan(&mut self, plan: PlanMeta)
        requires
            old(self).wf(),
        ensures
            final(self).wf(),
            final(self)@ == old(self)@.with_plan(plan@),
    {
        let id = plan.id;
        let ghost keys = plan_keys(self.plans@);
        let ghost values = plan_values(self.plans@);
        let ghost ttls = plan_ttls(self.plans@);
        let ghost value = plan@;
        match self.find_plan(&id) {
            Some(i) => {
                self.plans[i].plan = plan;
                proof {
                    assert(plan_keys(self.plans@) =~= keys);
                    assert(plan_values(self.plans@) =~= values.update(i as int, value));
                    assert(plan_ttls(self.plans@) =~= ttls);
                    lemma_key_map_update(keys, values, i as int, value);
                    lemma_key_map_at(keys, ttls, i as int);
                    assert(key_map(keys, ttls) =~= key_map(keys, ttls).insert(
                        id,
                        old(self)@.live_until_of(id),
                    ));
                }
            },
            None => {
                self.plans.push(PlanEntry { plan: plan, live_until: 0 });
                proof {
                    assert(plan_keys(self.plans@) =~= keys.push(id));
                    assert(plan_values(self.plans@) =~= values.push(value));
                    assert(plan_ttls(self.plans@) =~= ttls.push(0));
                    lemma_key_map_push(keys, values, id, value);
                    lemma_key_map_push(keys, ttls, id, 0u64);
                    lemma_key_map_absent(keys, ttls, id);
                }
            },
        }
    }

    /// Refreshes the retention of the plan under `id` for `tier` at ledger
    /// `sequence`. Nothing changes where no such plan is stored.
    pub fn extend_ttl(&mut self, id: &PlanId, sequence: u32, tier: StorageTier)
        requires
            old(self).wf(),
        ensures
            final(self).wf(),
            final(self)@ == old(self)@.bump_ttl(*id, sequence, tier),
    {
        let ghost keys = plan_keys(self.plans@);
        let ghost values = plan_values(self.plans@);
        let ghost ttls = plan_ttls(self.plans@);
        match self.find_plan(id) {
            Some(i) => {
                let until = extend(self.plans[i].live_until, sequence, tier);
                self.plans[i].live_until = until;
                proof {
                    assert(plan_keys(self.plans@) =~= keys);
                    assert(plan_values(self.plans@) =~= values);
                    assert(plan_ttls(self.plans@) =~= ttls.update(i as int, until));
                    lemma_key_map_update(keys, ttls, i as int, until);
                    lemma_key_map_at(keys, ttls, i as int);
                    lemma_key_map_at(keys, values, i as int);
                }
            },
            None => {
                proof {
                    lemma_key_map_absent(keys, values, *id);
                }
            },
        }
    }

    /// Whether the fingerprint is already listed.
    pub fn has_content(&self, content_hash: &ContentHash) -> (present: bool)
        ensures
            present == self@.content.contains(*content_hash),
    {
        let mut i: usize = 0;
        while i < self.content.len()
            invariant
                i <= self.content.len(),
                forall|j: int| 0 <= j < i ==> self.content[j] != *content_hash,
            decreases self.content.len() - i,
        {
            if same_bytes(&self.content[i], content_hash) {
                return true;
            }
            i += 1;
        }
        false
    }

    /// Lists the fingerprint.
    pub fn mark_content(&mut self, content_hash: ContentHash)
        requires
            old(self).wf(),
        ensures
            final(self).wf(),
            final(self)@ == (StorageView {
                content: old(self)@.content.insert(content_hash),
                ..old(self)@
            }),
    {
        let ghost before = self.content@;
        self.content.push(content_hash);
        proof {
            let after = before.push(content_hash);
            assert(self.content@ == after);
            assert forall|h: ContentHash| #[trigger]
                after.to_set().contains(h) <==> before.to_set().insert(content_hash).contains(
                    h,
                ) by {
                if before.contains(h) {
                    let i = before.index_of(h);
                    assert(after[i] == h);
                }
                if h == content_hash {
                    assert(after[before.len() as int] == h);
                }
                if after.contains(h) {
                    let i = after.index_of(h);
                    if i < before.len() {
                        assert(before[i] == h);
                    }
                }
            }
            assert(after.to_set() =~= before.to_set().insert(content_hash));
        }
    }

    /// The plans `contributor` has published, oldest first.
    pub fn get_contributor_plans(&self, contributor: &Address) -> (ids: Vec<PlanId>)
        requires
            self.wf(),
        ensures
            ids@ == self@.plan_ids_of(*contributor),
    {
        let mut ids: Vec<PlanId> = Vec::new();
        match self.find_contributor(contributor) {
            Some(i) => {
                proof {
                    lemma_key_map_at(
                        contributor_keys(self.contributors@),
                        contributor_values(self.contributors@),
                        i as int,
                    );
                }
                let stored = &self.contributors[i].plan_ids;
                let mut j: usize = 0;
                while j < stored.len()
                    invariant
                        j <= stored.len(),
                        ids@ == stored@.subrange(0, j as int),
                    decreases stored.len() - j,
                {
                    ids.push(stored[j]);
                    proof {
                        assert(ids@ =~= stored@.subrange(0, j + 1));
                    }
                    j += 1;
                }
                proof {
                    assert(ids@ =~= stored@);
                }
            },
            None => {
                proof {
                    assert(ids@ =~= Seq::<PlanId>::empty());
                }
            },
        }
        ids
    }

    /// Appends `id` to the plans of `contributor`.
    pub fn push_contributor_plan(&mut self, contributor: &Address, id: PlanId)
        requires
            old(self).wf(),
        ensures
            final(self).wf(),
            final(self)@ == (StorageView {
                contributor_plans: old(self)@.contributor_plans.insert(
                    *contributor,
                    old(self)@.plan_ids_of(*contributor).push(id),
                ),
                ..old(self)@
            }),
    {
        let ghost keys = contributor_keys(self.contributors@);
        let ghost values = contributor_values(self.contributors@);
        match self.find_contributor(contributor) {
            Some(i) => {
                self.contributors[i].plan_ids.push(id);
                proof {
                    let list = values[i as int].push(id);
                    assert(contributor_keys(self.contributors@) =~= keys);
                    assert(contributor_values(self.contributors@) =~= values.update(i as int, list));
                    lemma_key_map_at(keys, values, i as int);
                    lemma_key_map_update(keys, values, i as int, list);
                }
            },
            None => {
                let mut plan_ids: Vec<PlanId> = Vec::new();
                plan_ids.push(id);
                self.contributors.push(ContributorEntry { contributor: *contributor, plan_ids });
                proof {
                    let list = Seq::<PlanId>::empty().push(id);
                    assert(plan_ids@ =~= list);
                    assert(contributor_keys(self.contributors@) =~= keys.push(*contributor));
                    assert(contributor_values(self.contributors@) =~= values.push(list));
                    lemma_key_map_absent(keys, values, *contributor);
                    lemma_key_map_push(keys, values, *contributor, list);
                }
            },
        }
    }

    /// The purchases of the plan under `id`, oldest first.
    pub fn get_purchases(&self, id: &PlanId) -> (records: Vec<PurchaseRecord>)
        requires
            self.wf(),
        ensures
            records@ == self@.purchases_of(*id),
    {
        let mut records: Vec<PurchaseRecord> = Vec::new();
        match self.find_purchases(id) {
            Some(i) => {
                proof {
                    lemma_key_map_at(
                        purchase_keys(self.purchases@),
                        purchase_values(self.purchases@),
                        i as int,
                    );
                }
                let stored = &self.purchases[i].records;
                let mut j: usize = 0;
                while j < stored.len()
                    invariant
                        j <= stored.len(),
                        records@ == stored@.subrange(0, j as int),
                    decreases stored.len() - j,
                {
                    records.push(stored[j]);
                    proof {
                        assert(records@ =~= stored@.subrange(0, j + 1));
                    }
                    j += 1;
                }
                proof {
                    assert(records@ =~= stored@);
                }
            },
            None => {
                proof {
                    assert(records@ =~= Seq::<PurchaseRecord>::empty());
                }
            },
        }
        records
    }

    /// Appends `record` to the purchases of the plan under `id`.
    pub fn push_purchase(&mut self, id: &PlanId, record: PurchaseRecord)
        requires
            old(self).wf(),
        ensures
            final(self).wf(),
            final(self)@ == (StorageView {
                purchases: old(self)@.purchases.insert(
                    *id,
                    old(self)@.purchases_of(*id).push(record),
                ),
                ..old(self)@
            }),
    {
        let ghost keys = purchase_keys(self.purchases@);
        let ghost values = purchase_values(self.purchases@);
        match self.find_purchases(id) {
            Some(i) => {
                self.purchases[i].records.push(record);
                proof {
                    let list = values[i as int].push(record);
                    assert(purchase_keys(self.purchases@) =~= keys);
                    assert(purchase_values(self.purchases@) =~= values.update(i as int, list));
                    lemma_key_map_at(keys, values, i as int);
                    lemma_key_map_update(keys, values, i as int, list);
                }
            },
            None => {
                let mut records: Vec<PurchaseRecord> = Vec::new();
                records.push(record);
                self.purchases.push(PurchaseEntry { plan_id: *id, records });
                proof {
                    let list = Seq::<PurchaseRecord>::empty().push(record);
                    assert(records@ =~= list);
                    assert(purchase_keys(self.purchases@) =~= keys.push(*id));
                    assert(purchase_values(self.purchases@) =~= values.push(list));
                    lemma_key_map_absent(keys, values, *id);
                    lemma_key_map_push(keys, values, *id, list);
                }
            },
        }
    }
}

} // verus!
