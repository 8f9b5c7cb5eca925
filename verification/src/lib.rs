//! A marketplace registry for plans: metadata records that point at content
//! stored elsewhere. Plans are deduplicated by content fingerprint, kept for
//! as long as their tier promises, and sold with the price split between the
//! contributor and the operator.

pub mod admin;
pub mod error;
pub mod events;
pub mod keyed;
pub mod laws;
pub mod model;
pub mod plan;
pub mod purchase;
pub mod retention;
pub mod storage;
pub mod types;

use vstd::prelude::*;
use crate::error::Error;
use crate::events::{emit_plan_purchased, emit_plan_stored, emit_tier_changed, event_views, Event};
use crate::model::{ContractView, Operation};
use crate::storage::Storage;
use crate::types::{
    Address, CallContext, Config, ContentHash, KBStatsResult, PaymentOrder, PlanId, PlanMeta,
    PurchaseRecord, StorageTier, StorePlanInput, TransferOutcome,
};

verus! {

/// The marketplace: its store, and the notifications it has issued that
/// nobody has collected yet.
#[derive(Debug)]
pub struct SynapseContract {
    storage: Storage,
    events: Vec<Event>,
}

impl View for SynapseContract {
    type V = ContractView;

    closed spec fn view(&self) -> ContractView {
        ContractView { storage: self.storage@, events: event_views(self.events@) }
    }
}

impl SynapseContract {
    /// Whether the marketplace is well formed. Every marketplace made and
    /// changed through this type's functions is.
    pub closed spec fn wf(&self) -> bool {
        self.storage.wf()
    }

    /// A well-formed marketplace stands for a valid state.
    pub proof fn lemma_valid(&self)
        requires
            self.wf(),
        ensures
            self@.storage.valid(),
    {
        self.storage.lemma_valid();
    }

    /// A marketplace that has not been set up and holds nothing.
    pub fn new() -> (contract: SynapseContract)
        ensures
            contract.wf(),
            contract@ == ContractView::empty(),
    {
        let contract = SynapseContract { storage: Storage::new(), events: Vec::new() };
        assert(contract@.events =~= Seq::empty());
        contract
    }

    /// A marketplace over a store that was filled elsewhere, with no
    /// notification pending.
    pub fn from_storage(storage: Storage) -> (contract: SynapseContract)
        requires
            storage.wf(),
        ensures
            contract.wf(),
            contract@ == (ContractView { storage: storage@, events: Seq::empty() }),
    {
        let contract = SynapseContract { storage: storage, events: Vec::new() };
        assert(contract@.events =~= Seq::empty());
        contract
    }

    /// The store behind the marketplace, for reading.
    pub fn storage(&self) -> (storage: &Storage)
        ensures
            storage@ == self@.storage,
            self.wf() ==> storage.wf(),
    {
        &self.storage
    }

    /// The notifications issued and not yet collected, oldest first.
    pub fn events(&self) -> (events: &Vec<Event>)
        ensures
            event_views(events@) == self@.events,
    {
        &self.events
    }

    /// Hands over the notifications issued since they were last collected,
    /// oldest first, and forgets them.
    pub fn take_events(&mut self) -> (events: Vec<Event>)
        ensures
            final(self).wf() == old(self).wf(),
            event_views(events@) == old(self)@.events,
            final(self)@ == (ContractView { events: Seq::empty(), ..old(self)@ }),
    {
        let mut events: Vec<Event> = Vec::new();
        std::mem::swap(&mut self.events, &mut events);
        assert(event_views(self.events@) =~= Seq::empty());
        events
    }

    /// Sets the marketplace up, once: fixes the admin, the operator, the
    /// contributor's share in percent and the payment asset, and starts both
    /// counters at zero. Refused with `AlreadyInitialized` once set up, and
    /// with `InvalidPercentage` for a share above one hundred.
    pub fn initialize(
        &mut self,
        admin: Address,
        operator: Address,
        contributor_share_pct: u32,
        native_token: Address,
    ) -> (result: Result<(), Error>)
        requires
            old(self).wf(),
        ensures
            final(self).wf(),
            final(self)@ == old(self)@.after(
                Operation::Initialize { admin, operator, contributor_share_pct, native_token },
            ),
            match result {
                Ok(()) => old(self)@.initialize(admin, operator, contributor_share_pct, native_token)
                    == Ok::<ContractView, Error>(final(self)@),
                Err(error) => old(self)@.initialize(
                    admin,
                    operator,
                    contributor_share_pct,
                    native_token,
                ) == Err::<ContractView, Error>(error) && final(self)@ == old(self)@,
            },
    {
        if self.storage.config().is_some() {
            return Err(Error::AlreadyInitialized);
        }
        if contributor_share_pct > 100 {
            return Err(Error::InvalidPercentage);
        }
        let written = self.storage.set_config(
            Config { admin, operator, contributor_share_pct, native_token },
        );
        self.storage.set_stats(KBStatsResult { total_plans: 0, total_purchases: 0 });
        written
    }

    /// Whether `contributor` could publish `input` now, and if not, why.
    /// Nothing is changed. Refused for the reasons, and in the order, for
    /// which publishing itself is refused.
    pub fn check_store_plan(&self, ctx: &CallContext, contributor: Address, input: &StorePlanInput) -> (result:
        Result<(), Error>)
        requires
            self.wf(),
        ensures
            result == match self@.store_plan_refusal(*ctx, contributor, input@) {
                Some(error) => Err::<(), Error>(error),
                None => Ok(()),
            },
    {
        if self.storage.config().is_none() {
            return Err(Error::NotInitialized);
        }
        if !ctx.require_caller(&contributor) {
            return Err(Error::Unauthorized);
        }
        if plan::content_exists(&self.storage, &input.content_hash) {
            return Err(Error::DuplicateContent);
        }
        if self.storage.has_plan(&input.id) {
            return Err(Error::DuplicateId);
        }
        Ok(())
    }

    /// Publishes a plan for `contributor`: the plan is stored hot and never
    /// purchased, stamped with the time of the call, and a notification is
    /// issued. Refused, in this order, with `NotInitialized` before set-up,
    /// with `Unauthorized` unless the contributor authorized the call, with
    /// `DuplicateContent` where the fingerprint is already listed, whatever
    /// the identifier, and with `DuplicateId` where a plan is stored under the
    /// identifier: the plan stored first stays as it is. A refused call
    /// changes nothing, whatever the counter holds.
    pub fn store_plan(&mut self, ctx: &CallContext, contributor: Address, input: StorePlanInput) -> (result:
        Result<(), Error>)
        requires
            old(self).wf(),
            old(self)@.store_plan(*ctx, contributor, input@) is Ok ==> old(
                self,
            )@.storage.stats.total_plans < u32::MAX,
        ensures
            final(self).wf(),
            final(self)@ == old(self)@.after(
                Operation::StorePlan { ctx: *ctx, contributor: contributor, input: input@ },
            ),
            match result {
                Ok(()) => old(self)@.store_plan(*ctx, contributor, input@) == Ok::<
                    ContractView,
                    Error,
                >(final(self)@),
                Err(error) => old(self)@.store_plan(*ctx, contributor, input@) == Err::<
                    ContractView,
                    Error,
                >(error) && final(self)@ == old(self)@,
            },
    {
        if self.storage.config().is_none() {
            return Err(Error::NotInitialized);
        }
        if !ctx.require_caller(&contributor) {
            return Err(Error::Unauthorized);
        }
        let tier = StorageTier::Hot;
        let plan = PlanMeta {
            id: input.id,
            title: input.title,
            description: input.description,
            content_hash: input.content_hash,
            ipfs_cid: input.ipfs_cid,
            tags: input.tags,
            domain: input.domain,
            language: input.language,
            framework: input.framework,
            contributor: contributor,
            quality_score: input.quality_score,
            purchase_count: 0,
            tier: tier,
            created_at: ctx.timestamp,
        };
        plan::save_plan(&mut self.storage, &plan, ctx.sequence)?;
        emit_plan_stored(
            &mut self.events,
            &plan.id,
            &plan.content_hash,
            &contributor,
            &plan.title,
            &plan.tags,
            &plan.ipfs_cid,
            &tier,
        );
        Ok(())
    }

    /// A copy of the plan stored under `plan_id`; none where the identifier is
    /// unknown.
    pub fn get_plan(&self, plan_id: PlanId) -> (found: Option<PlanMeta>)
        requires
            self.wf(),
        ensures
            match found {
                Some(plan) => self@.storage.plan(plan_id) == Some(plan@),
                None => self@.storage.plan(plan_id) is None,
            },
    {
        plan::get_plan(&self.storage, &plan_id)
    }

    /// Whether a plan with this fingerprint has been published.
    pub fn content_exists(&self, content_hash: ContentHash) -> (exists: bool)
        ensures
            exists == self@.storage.content.contains(content_hash),
    {
        plan::content_exists(&self.storage, &content_hash)
    }

    /// The transfers that buying plan `plan_id` at `amount` asks for: the
    /// contributor's share to the plan's contributor and the rest to the
    /// operator, both from the buyer. Nothing is changed. Refused for the
    /// reasons, and in the order, for which the purchase itself is refused
    /// before any money moves.
    pub fn quote_purchase(&self, ctx: &CallContext, buyer: Address, plan_id: PlanId, amount: i128) -> (order:
        Result<PaymentOrder, Error>)
        requires
            self.wf(),
        ensures
            order == self@.storage.quote_purchase(*ctx, buyer, plan_id, amount),
    {
        purchase::quote_purchase(&self.storage, ctx, &buyer, &plan_id, amount)
    }

    /// Books the purchase of plan `plan_id` by `buyer` at `amount`, given how
    /// the transfers of its quote ended. On success the receipt is returned and
    /// appended to the plan's purchases, the plan is counted once more and
    /// promoted to hot with its retention refreshed, the purchase counter is
    /// raised by one, and a notification is issued. Refused, in this order,
    /// with `NotInitialized` before set-up, with `Unauthorized` unless the
    /// buyer authorized the call, with `PlanNotFound` for an unknown plan,
    /// with `InvalidAmount` for an amount that is not positive, and with
    /// `TransferFailed` where the transfers were rejected. A refused call
    /// changes nothing, whatever the counters hold.
    pub fn purchase_plan(
        &mut self,
        ctx: &CallContext,
        buyer: Address,
        plan_id: PlanId,
        amount: i128,
        transfers: TransferOutcome,
    ) -> (receipt: Result<PurchaseRecord, Error>)
        requires
            old(self).wf(),
            old(self)@.purchase_plan(*ctx, buyer, plan_id, amount, transfers) is Ok ==> old(
                self,
            )@.storage.stats.total_purchases < u32::MAX && old(
                self,
            )@.storage.plans[plan_id].purchase_count < u32::MAX,
        ensures
            final(self).wf(),
            final(self)@ == old(self)@.after(
                Operation::PurchasePlan { ctx: *ctx, buyer, plan_id, amount, transfers },
            ),
            match receipt {
                Ok(record) => old(self)@.purchase_plan(*ctx, buyer, plan_id, amount, transfers)
                    == Ok::<(ContractView, PurchaseRecord), Error>((final(self)@, record)),
                Err(error) => old(self)@.purchase_plan(*ctx, buyer, plan_id, amount, transfers)
                    == Err::<(ContractView, PurchaseRecord), Error>(error) && final(self)@ == old(
                    self,
                )@,
            },
    {
        let plan = plan::get_plan(&self.storage, &plan_id);
        let record = purchase::execute_purchase(
            &mut self.storage,
            ctx,
            &buyer,
            &plan_id,
            amount,
            transfers,
        )?;
        match plan {
            Some(plan) => {
                emit_plan_purchased(&mut self.events, &plan_id, &buyer, amount, &plan.contributor);
            },
            None => {},
        }
        Ok(record)
    }

    /// The purchases of the plan under `plan_id`, oldest first; empty where
    /// there are none or the plan is unknown.
    pub fn get_purchases(&self, plan_id: PlanId) -> (records: Vec<PurchaseRecord>)
        requires
            self.wf(),
        ensures
            records@ == self@.storage.purchases_of(plan_id),
    {
        purchase::get_purchases(&self.storage, &plan_id)
    }

    /// The plans `contributor` has published, oldest first; empty for a
    /// contributor who never published.
    pub fn get_contributor_plans(&self, contributor: Address) -> (ids: Vec<PlanId>)
        requires
            self.wf(),
        ensures
            ids@ == self@.storage.plan_ids_of(contributor),
    {
        plan::get_contributor_plans(&self.storage, &contributor)
    }

    /// Moves plan `plan_id` to `new_tier`, refreshes its retention for that
    /// tier, and issues a notification naming the old and the new tier.
    /// Refused, in this order, with `NotInitialized` before set-up, with
    /// `Unauthorized` unless the caller authorized the call, with
    /// `PlanNotFound` for an unknown plan, and with `Unauthorized` for a
    /// caller who is neither the admin nor the plan's contributor.
    pub fn set_tier(
        &mut self,
        ctx: &CallContext,
        caller: Address,
        plan_id: PlanId,
        new_tier: StorageTier,
    ) -> (result: Result<(), Error>)
        requires
            old(self).wf(),
        ensures
            final(self).wf(),
            final(self)@ == old(self)@.after(
                Operation::SetTier { ctx: *ctx, caller, plan_id, new_tier },
            ),
            match result {
                Ok(()) => old(self)@.set_tier(*ctx, caller, plan_id, new_tier) == Ok::<
                    ContractView,
                    Error,
                >(final(self)@),
                Err(error) => old(self)@.set_tier(*ctx, caller, plan_id, new_tier) == Err::<
                    ContractView,
                    Error,
                >(error) && final(self)@ == old(self)@,
            },
    {
        proof {
            self.storage.lemma_valid();
        }
        let config = match self.storage.config() {
            Some(config) => config,
            None => {
                return Err(Error::NotInitialized);
            },
        };
        if !ctx.require_caller(&caller) {
            return Err(Error::Unauthorized);
        }
        let mut plan = match plan::get_plan(&self.storage, &plan_id) {
            Some(plan) => plan,
            None => {
                return Err(Error::PlanNotFound);
            },
        };
        if !caller.same(&config.admin) && !caller.same(&plan.contributor) {
            return Err(Error::Unauthorized);
        }
        let old_tier = plan.tier;
        plan.tier = new_tier;
        plan::update_plan(&mut self.storage, &plan, ctx.sequence);
        emit_tier_changed(&mut self.events, &plan_id, &old_tier, &new_tier);
        Ok(())
    }

    /// Refreshes the retention of plan `plan_id` for the tier it is in. The
    /// tier stays, and no notification is issued. Refused with
    /// `NotInitialized` before set-up and with `PlanNotFound` for an unknown
    /// plan.
    pub fn bump_plan_ttl(&mut self, ctx: &CallContext, plan_id: PlanId) -> (result: Result<(), Error>)
        requires
            old(self).wf(),
        ensures
            final(self).wf(),
            final(self)@ == old(self)@.after(Operation::BumpPlanTtl { ctx: *ctx, plan_id }),
            match result {
                Ok(()) => old(self)@.bump_plan_ttl(*ctx, plan_id) == Ok::<ContractView, Error>(
                    final(self)@,
                ),
                Err(error) => old(self)@.bump_plan_ttl(*ctx, plan_id) == Err::<ContractView, Error>(
                    error,
                ) && final(self)@ == old(self)@,
            },
    {
        if self.storage.config().is_none() {
            return Err(Error::NotInitialized);
        }
        let plan = match plan::get_plan(&self.storage, &plan_id) {
            Some(plan) => plan,
            None => {
                return Err(Error::PlanNotFound);
            },
        };
        plan::bump_ttl(&mut self.storage, &plan_id, &plan.tier, ctx.sequence);
        Ok(())
    }

    /// How many plans have been published and how many purchases booked; both
    /// zero before set-up.
    pub fn get_stats(&self) -> (stats: KBStatsResult)
        ensures
            stats == self@.storage.stats,
    {
        self.storage.stats()
    }

    /// The contributor's part of every sale, in percent. Refused with
    /// `NotInitialized` before set-up.
    pub fn get_share_pct(&self) -> (pct: Result<u32, Error>)
        ensures
            pct == match self@.storage.config {
                None => Err::<u32, Error>(Error::NotInitialized),
                Some(config) => Ok(config.contributor_share_pct),
            },
    {
        admin::get_contributor_share_pct(&self.storage)
    }

    /// Replaces the operator. Refused with `NotInitialized` before set-up and
    /// with `Unauthorized` unless the admin authorized the call.
    pub fn set_operator(&mut self, ctx: &CallContext, new_operator: Address) -> (result: Result<
        (),
        Error,
    >)
        requires
            old(self).wf(),
        ensures
            final(self).wf(),
            final(self)@ == old(self)@.after(Operation::SetOperator { ctx: *ctx, new_operator }),
            match result {
                Ok(()) => old(self)@.set_operator(*ctx, new_operator) == Ok::<ContractView, Error>(
                    final(self)@,
                ),
                Err(error) => old(self)@.set_operator(*ctx, new_operator) == Err::<
                    ContractView,
                    Error,
                >(error) && final(self)@ == old(self)@,
            },
    {
        proof {
            self.storage.lemma_valid();
        }
        admin::require_admin(&self.storage, ctx)?;
        match self.storage.config() {
            Some(config) => self.storage.set_config(Config { operator: new_operator, ..config }),
            None => Err(Error::NotInitialized),
        }
    }
}

impl Default for SynapseContract {
    fn default() -> (contract: SynapseContract)
        ensures
            contract.wf(),
            contract@ == ContractView::empty(),
    {
        SynapseContract::new()
    }
}

} // verus!
