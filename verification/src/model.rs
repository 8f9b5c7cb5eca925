use vstd::prelude::*;
use crate::error::Error;
use crate::events::EventView;
use crate::retention::extended;
use crate::types::{
    published_plan, Address, CallContext, Config, ContentHash, KBStatsResult, PaymentOrder,
    PlanId, PlanMetaView, PurchaseRecord, StorageTier, StorePlanInputView, TransferOutcome,
};

verus! {

/// The contributor's part of `amount` at `pct` percent, rounded down.
pub open spec fn contributor_share_of(amount: i128, pct: u32) -> int {
    (amount * pct) / 100
}

/// What is left of `amount` for the operator once the contributor is paid.
pub open spec fn operator_share_of(amount: i128, pct: u32) -> int {
    amount - contributor_share_of(amount, pct)
}

/// Everything the marketplace keeps: its settings and counters, the plans and
/// how long each is retained, the fingerprints already listed, each
/// contributor's plans in publishing order, and each plan's purchases in order.
pub struct StorageView {
    pub config: Option<Config>,
    pub stats: KBStatsResult,
    pub plans: Map<PlanId, PlanMetaView>,
    pub live_until: Map<PlanId, u64>,
    pub content: Set<ContentHash>,
    pub contributor_plans: Map<Address, Seq<PlanId>>,
    pub purchases: Map<PlanId, Seq<PurchaseRecord>>,
}

impl StorageView {
    /// The state before anything has happened.
    pub open spec fn empty() -> StorageView {
        StorageView {
            config: None,
            stats: KBStatsResult { total_plans: 0, total_purchases: 0 },
            plans: Map::empty(),
            live_until: Map::empty(),
            content: Set::empty(),
            contributor_plans: Map::empty(),
            purchases: Map::empty(),
        }
    }

    /// What holds of every state a store can be in: the share is a percentage,
    /// every plan is filed under its own identifier, and exactly the stored
    /// plans have a retention promise.
    pub open spec fn valid(self) -> bool {
        &&& self.config matches Some(config) ==> config.contributor_share_pct <= 100
        &&& forall|id: PlanId| #[trigger] self.plans.dom().contains(id) ==> self.plans[id].id == id
        &&& self.live_until.dom() == self.plans.dom()
    }

    /// The plan stored under `id`, if there is one.
    pub open spec fn plan(self, id: PlanId) -> Option<PlanMetaView> {
        if self.plans.dom().contains(id) {
            Some(self.plans[id])
        } else {
            None
        }
    }

    /// The plans `contributor` has published, oldest first.
    pub open spec fn plan_ids_of(self, contributor: Address) -> Seq<PlanId> {
        if self.contributor_plans.dom().contains(contributor) {
            self.contributor_plans[contributor]
        } else {
            Seq::empty()
        }
    }

    /// The purchases of plan `id`, oldest first.
    pub open spec fn purchases_of(self, id: PlanId) -> Seq<PurchaseRecord> {
        if self.purchases.dom().contains(id) {
            self.purchases[id]
        } else {
            Seq::empty()
        }
    }

    /// The ledger until which plan `id` is promised to be kept; zero where
    /// nothing has been promised.
    pub open spec fn live_until_of(self, id: PlanId) -> u64 {
        if self.live_until.dom().contains(id) {
            self.live_until[id]
        } else {
            0
        }
    }

    /// The state with new settings and both counters at zero.
    pub open spec fn with_config(self, config: Config) -> StorageView {
        StorageView {
            config: Some(config),
            stats: KBStatsResult { total_plans: 0, total_purchases: 0 },
            ..self
        }
    }

    /// The state with `plan` written under its identifier. A retention promise
    /// already given for that identifier stays as it is.
    pub open spec fn with_plan(self, plan: PlanMetaView) -> StorageView {
        StorageView {
            plans: self.plans.insert(plan.id, plan),
            live_until: self.live_until.insert(plan.id, self.live_until_of(plan.id)),
            ..self
        }
    }

    /// The state after the retention of plan `id` has been refreshed for `tier`
    /// at ledger `sequence`. Nothing changes where no such plan is stored.
    pub open spec fn bump_ttl(self, id: PlanId, sequence: u32, tier: StorageTier) -> StorageView {
        if self.plans.dom().contains(id) {
            StorageView {
                live_until: self.live_until.insert(
                    id,
                    extended(self.live_until_of(id), sequence, tier),
                ),
                ..self
            }
        } else {
            self
        }
    }

    /// The state after an existing record has been rewritten: the plan is
    /// stored and its retention refreshed for its tier.
    pub open spec fn update_plan(self, plan: PlanMetaView, sequence: u32) -> StorageView {
        self.with_plan(plan).bump_ttl(plan.id, sequence, plan.tier)
    }

    /// The state after a new plan has been filed: the plan is stored, its
    /// fingerprint listed, its identifier appended to its contributor's plans,
    /// the plan counter raised, and its retention refreshed for its tier.
    pub open spec fn file_plan(self, plan: PlanMetaView, sequence: u32) -> StorageView {
        let stored = self.with_plan(plan);
        let filed = StorageView {
            content: stored.content.insert(plan.content_hash),
            contributor_plans: stored.contributor_plans.insert(
                plan.contributor,
                stored.plan_ids_of(plan.contributor).push(plan.id),
            ),
            stats: KBStatsResult {
                total_plans: (stored.stats.total_plans + 1) as u32,
                total_purchases: stored.stats.total_purchases,
            },
            ..stored
        };
        filed.bump_ttl(plan.id, sequence, plan.tier)
    }

    /// Why a plan cannot be filed as new, if it cannot: its fingerprint is
    /// listed already, or a plan is stored under its identifier.
    pub open spec fn filing_refusal(self, plan: PlanMetaView) -> Option<Error> {
        if self.content.contains(plan.content_hash) {
            Some(Error::DuplicateContent)
        } else if self.plans.dom().contains(plan.id) {
            Some(Error::DuplicateId)
        } else {
            None
        }
    }

    /// Filing a new plan: refused for a fingerprint already listed, whatever
    /// the identifier, and for an identifier in use.
    pub open spec fn save_plan(self, plan: PlanMetaView, sequence: u32) -> Result<
        StorageView,
        Error,
    > {
        match self.filing_refusal(plan) {
            Some(error) => Err(error),
            None => Ok(self.file_plan(plan, sequence)),
        }
    }

    /// Why a purchase is refused before any money moves, if it is.
    pub open spec fn purchase_refusal(
        self,
        ctx: CallContext,
        buyer: Address,
        plan_id: PlanId,
        amount: i128,
    ) -> Option<Error> {
        if self.config is None {
            Some(Error::NotInitialized)
        } else if !ctx.authorizes(buyer) {
            Some(Error::Unauthorized)
        } else if !self.plans.dom().contains(plan_id) {
            Some(Error::PlanNotFound)
        } else if amount <= 0 {
            Some(Error::InvalidAmount)
        } else {
            None
        }
    }

    /// The two transfers that pay for plan `plan_id` at `amount`.
    pub open spec fn payment_order(self, buyer: Address, plan_id: PlanId, amount: i128) -> PaymentOrder
        recommends
            self.config is Some,
            self.plans.dom().contains(plan_id),
    {
        let config = self.config.unwrap();
        PaymentOrder {
            token: config.native_token,
            buyer: buyer,
            contributor: self.plans[plan_id].contributor,
            contributor_share: contributor_share_of(amount, config.contributor_share_pct) as i128,
            operator: config.operator,
            operator_share: operator_share_of(amount, config.contributor_share_pct) as i128,
        }
    }

    /// The transfers a purchase asks for, or why it is refused.
    pub open spec fn quote_purchase(
        self,
        ctx: CallContext,
        buyer: Address,
        plan_id: PlanId,
        amount: i128,
    ) -> Result<PaymentOrder, Error> {
        match self.purchase_refusal(ctx, buyer, plan_id, amount) {
            Some(error) => Err(error),
            None => Ok(self.payment_order(buyer, plan_id, amount)),
        }
    }

    /// The receipt of a purchase of `amount` made at ledger `sequence`.
    pub open spec fn receipt(self, buyer: Address, amount: i128, sequence: u32) -> PurchaseRecord
        recommends
            self.config is Some,
    {
        let pct = self.config.unwrap().contributor_share_pct;
        PurchaseRecord {
            buyer: buyer,
            amount_stroops: amount,
            contributor_share: contributor_share_of(amount, pct) as i128,
            operator_share: operator_share_of(amount, pct) as i128,
            ledger: sequence,
        }
    }

    /// The plan `plan_id` as it stands after one more purchase: counted, and hot.
    pub open spec fn purchased_plan(self, plan_id: PlanId) -> PlanMetaView
        recommends
            self.plans.dom().contains(plan_id),
    {
        let plan = self.plans[plan_id];
        PlanMetaView {
            purchase_count: (plan.purchase_count + 1) as u32,
            tier: StorageTier::Hot,
            ..plan
        }
    }

    /// The state after a purchase has been booked: the receipt is appended to
    /// the plan's purchases, the plan is counted and promoted to hot with its
    /// retention refreshed, and the purchase counter is raised.
    pub open spec fn book_purchase(
        self,
        plan_id: PlanId,
        record: PurchaseRecord,
        sequence: u32,
    ) -> StorageView {
        let logged = StorageView {
            purchases: self.purchases.insert(plan_id, self.purchases_of(plan_id).push(record)),
            ..self
        };
        let promoted = logged.update_plan(self.purchased_plan(plan_id), sequence);
        StorageView {
            stats: KBStatsResult {
                total_plans: promoted.stats.total_plans,
                total_purchases: (promoted.stats.total_purchases + 1) as u32,
            },
            ..promoted
        }
    }

    /// A purchase as a whole: refused for the reasons of `purchase_refusal`, or
    /// because the transfers were rejected; booked otherwise.
    pub open spec fn execute_purchase(
        self,
        ctx: CallContext,
        buyer: Address,
        plan_id: PlanId,
        amount: i128,
        transfers: TransferOutcome,
    ) -> Result<(StorageView, PurchaseRecord), Error> {
        match self.purchase_refusal(ctx, buyer, plan_id, amount) {
            Some(error) => Err(error),
            None => {
                if transfers == TransferOutcome::Rejected {
                    Err(Error::TransferFailed)
                } else {
                    let record = self.receipt(buyer, amount, ctx.sequence);
                    Ok((self.book_purchase(plan_id, record, ctx.sequence), record))
                }
            },
        }
    }
}

/// The marketplace as its users see it: what it keeps, and the notifications
/// it has issued, oldest first.
pub struct ContractView {
    pub storage: StorageView,
    pub events: Seq<EventView>,
}

impl ContractView {
    /// The marketplace before anything has happened.
    pub open spec fn empty() -> ContractView {
        ContractView { storage: StorageView::empty(), events: Seq::empty() }
    }

    /// Setting up: refused once set up, and for a share above one hundred.
    pub open spec fn initialize(
        self,
        admin: Address,
        operator: Address,
        contributor_share_pct: u32,
        native_token: Address,
    ) -> Result<ContractView, Error> {
        if self.storage.config is Some {
            Err(Error::AlreadyInitialized)
        } else if contributor_share_pct > 100 {
            Err(Error::InvalidPercentage)
        } else {
            Ok(
                ContractView {
                    storage: self.storage.with_config(
                        Config { admin, operator, contributor_share_pct, native_token },
                    ),
                    ..self
                },
            )
        }
    }

    /// Replacing the operator: only once set up, and only by the admin.
    pub open spec fn set_operator(self, ctx: CallContext, new_operator: Address) -> Result<
        ContractView,
        Error,
    > {
        match self.storage.config {
            None => Err(Error::NotInitialized),
            Some(config) => {
                if !ctx.authorizes(config.admin) {
                    Err(Error::Unauthorized)
                } else {
                    Ok(
                        ContractView {
                            storage: StorageView {
                                config: Some(Config { operator: new_operator, ..config }),
                                ..self.storage
                            },
                            ..self
                        },
                    )
                }
            },
        }
    }

    /// Why a plan cannot be published, if it cannot: in this order, the
    /// marketplace is not set up, the contributor did not authorize the call,
    /// the fingerprint is listed already, or the identifier is in use.
    pub open spec fn store_plan_refusal(
        self,
        ctx: CallContext,
        contributor: Address,
        input: StorePlanInputView,
    ) -> Option<Error> {
        if self.storage.config is None {
            Some(Error::NotInitialized)
        } else if !ctx.authorizes(contributor) {
            Some(Error::Unauthorized)
        } else {
            self.storage.filing_refusal(published_plan(input, contributor, ctx.timestamp))
        }
    }

    /// Publishing: refused for the reasons of `store_plan_refusal`; otherwise
    /// the plan is filed and a notification issued.
    pub open spec fn store_plan(
        self,
        ctx: CallContext,
        contributor: Address,
        input: StorePlanInputView,
    ) -> Result<ContractView, Error> {
        match self.store_plan_refusal(ctx, contributor, input) {
            Some(error) => Err(error),
            None => {
                let plan = published_plan(input, contributor, ctx.timestamp);
                Ok(
                    ContractView {
                        storage: self.storage.file_plan(plan, ctx.sequence),
                        events: self.events.push(
                            EventView::PlanStored {
                                plan_id: plan.id,
                                content_hash: plan.content_hash,
                                contributor: contributor,
                                title: plan.title,
                                tags: plan.tags,
                                ipfs_cid: plan.ipfs_cid,
                                tier: StorageTier::Hot,
                            },
                        ),
                    },
                )
            },
        }
    }

    /// Retiering: refused before set-up, without the caller's authorization,
    /// for an unknown plan, and for a caller who is neither the admin nor the
    /// plan's contributor.
    pub open spec fn set_tier(
        self,
        ctx: CallContext,
        caller: Address,
        plan_id: PlanId,
        new_tier: StorageTier,
    ) -> Result<ContractView, Error> {
        match self.storage.config {
            None => Err(Error::NotInitialized),
            Some(config) => {
                if !ctx.authorizes(caller) {
                    Err(Error::Unauthorized)
                } else if !self.storage.plans.dom().contains(plan_id) {
                    Err(Error::PlanNotFound)
                } else if caller != config.admin && caller
                    != self.storage.plans[plan_id].contributor {
                    Err(Error::Unauthorized)
                } else {
                    let plan = self.storage.plans[plan_id];
                    Ok(
                        ContractView {
                            storage: self.storage.update_plan(
                                PlanMetaView { tier: new_tier, ..plan },
                                ctx.sequence,
                            ),
                            events: self.events.push(
                                EventView::TierChanged {
                                    plan_id: plan_id,
                                    old_tier: plan.tier,
                                    new_tier: new_tier,
                                },
                            ),
                        },
                    )
                }
            },
        }
    }

    /// Refreshing a plan's retention for the tier it is in: refused before
    /// set-up and for an unknown plan.
    pub open spec fn bump_plan_ttl(self, ctx: CallContext, plan_id: PlanId) -> Result<
        ContractView,
        Error,
    > {
        if self.storage.config is None {
            Err(Error::NotInitialized)
        } else if !self.storage.plans.dom().contains(plan_id) {
            Err(Error::PlanNotFound)
        } else {
            Ok(
                ContractView {
                    storage: self.storage.bump_ttl(
                        plan_id,
                        ctx.sequence,
                        self.storage.plans[plan_id].tier,
                    ),
                    ..self
                },
            )
        }
    }

    /// Purchasing: as the store books it, with a notification on success.
    pub open spec fn purchase_plan(
        self,
        ctx: CallContext,
        buyer: Address,
        plan_id: PlanId,
        amount: i128,
        transfers: TransferOutcome,
    ) -> Result<(ContractView, PurchaseRecord), Error> {
        match self.storage.execute_purchase(ctx, buyer, plan_id, amount, transfers) {
            Err(error) => Err(error),
            Ok((storage, record)) => Ok(
                (
                    ContractView {
                        storage: storage,
                        events: self.events.push(
                            EventView::PlanPurchased {
                                plan_id: plan_id,
                                buyer: buyer,
                                amount: amount,
                                contributor: self.storage.plans[plan_id].contributor,
                            },
                        ),
                    },
                    record,
                ),
            ),
        }
    }
}

/// One call that may change the marketplace, with its arguments.
pub enum Operation {
    Initialize {
        admin: Address,
        operator: Address,
        contributor_share_pct: u32,
        native_token: Address,
    },
    SetOperator { ctx: CallContext, new_operator: Address },
    StorePlan { ctx: CallContext, contributor: Address, input: StorePlanInputView },
    SetTier { ctx: CallContext, caller: Address, plan_id: PlanId, new_tier: StorageTier },
    BumpPlanTtl { ctx: CallContext, plan_id: PlanId },
    PurchasePlan {
        ctx: CallContext,
        buyer: Address,
        plan_id: PlanId,
        amount: i128,
        transfers: TransferOutcome,
    },
}

impl ContractView {
    /// The marketplace that a call produces, or why the call is refused.
    pub open spec fn apply(self, op: Operation) -> Result<ContractView, Error> {
        match op {
            Operation::Initialize { admin, operator, contributor_share_pct, native_token } => {
                self.initialize(admin, operator, contributor_share_pct, native_token)
            },
            Operation::SetOperator { ctx, new_operator } => self.set_operator(ctx, new_operator),
            Operation::StorePlan { ctx, contributor, input } => self.store_plan(
                ctx,
                contributor,
                input,
            ),
            Operation::SetTier { ctx, caller, plan_id, new_tier } => self.set_tier(
                ctx,
                caller,
                plan_id,
                new_tier,
            ),
            Operation::BumpPlanTtl { ctx, plan_id } => self.bump_plan_ttl(ctx, plan_id),
            Operation::PurchasePlan { ctx, buyer, plan_id, amount, transfers } => {
                match self.purchase_plan(ctx, buyer, plan_id, amount, transfers) {
                    Ok((contract, _)) => Ok(contract),
                    Err(error) => Err(error),
                }
            },
        }
    }

    /// The marketplace after a call: what the call produces, or the
    /// marketplace as it was where the call is refused.
    pub open spec fn after(self, op: Operation) -> ContractView {
        match self.apply(op) {
            Ok(contract) => contract,
            Err(_) => self,
        }
    }

    /// What a caller owes before a call: no counter that the call raises is at
    /// its limit. Nothing is owed for a call that is refused.
    pub open spec fn admits(self, op: Operation) -> bool {
        match op {
            Operation::StorePlan { .. } => self.apply(op) is Ok ==> self.storage.stats.total_plans
                < u32::MAX,
            Operation::PurchasePlan { plan_id, .. } => self.apply(op) is Ok ==> {
                &&& self.storage.stats.total_purchases < u32::MAX
                &&& self.storage.plans[plan_id].purchase_count < u32::MAX
            },
            _ => true,
        }
    }

    /// What holds of the marketplace at all times: its store is valid, every
    /// plan's fingerprint is listed, no two plans share a fingerprint, only
    /// stored plans have purchases, a plan has been purchased as often as it
    /// has receipts, and every receipt splits its amount exactly.
    pub open spec fn consistent(self) -> bool {
        &&& self.storage.valid()
        &&& forall|id: PlanId| #[trigger]
            self.storage.plans.dom().contains(id) ==> self.storage.content.contains(
                self.storage.plans[id].content_hash,
            )
        &&& forall|a: PlanId, b: PlanId|
            #![trigger self.storage.plans[a], self.storage.plans[b]]
            self.storage.plans.dom().contains(a) && self.storage.plans.dom().contains(b) && a != b
                ==> self.storage.plans[a].content_hash != self.storage.plans[b].content_hash
        &&& forall|id: PlanId| #[trigger]
            self.storage.purchases.dom().contains(id) ==> self.storage.plans.dom().contains(id)
        &&& forall|id: PlanId| #[trigger]
            self.storage.plans.dom().contains(id) ==> self.storage.purchases_of(id).len()
                == self.storage.plans[id].purchase_count
        &&& forall|id: PlanId, i: int|
            0 <= i < self.storage.purchases_of(id).len() ==> exact_split(
                #[trigger] self.storage.purchases_of(id)[i],
            )
    }
}

/// Whether a receipt's two shares are not negative and add up to its amount.
pub open spec fn exact_split(record: PurchaseRecord) -> bool {
    &&& record.amount_stroops > 0
    &&& 0 <= record.contributor_share <= record.amount_stroops
    &&& record.contributor_share + record.operator_share == record.amount_stroops
}

} // verus!
