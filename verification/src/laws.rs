use vstd::prelude::*;
use crate::error::Error;
use crate::model::{
    contributor_share_of, exact_split, operator_share_of, ContractView, Operation, StorageView,
};
use crate::retention::window;
use crate::types::{
    published_plan, Address, CallContext, ContentHash, PlanId, PurchaseRecord, StorageTier,
    StorePlanInputView, TransferOutcome,
};

verus! {

/// A plan that has been published can be read back as it was published: hot,
/// never purchased, stamped with the time of the call.
pub proof fn law_published_plan_is_stored(
    pre: ContractView,
    ctx: CallContext,
    contributor: Address,
    input: StorePlanInputView,
)
    requires
        pre.store_plan(ctx, contributor, input) is Ok,
    ensures
        ({
            let post = pre.after(Operation::StorePlan { ctx, contributor, input });
            &&& post.storage.plan(input.id) == Some(
                published_plan(input, contributor, ctx.timestamp),
            )
            &&& post.storage.plans[input.id].tier == StorageTier::Hot
            &&& post.storage.plans[input.id].purchase_count == 0
        }),
{
}

/// Once a plan has been published, its fingerprint is listed, and an
/// authorized attempt to publish the same content again is refused as a
/// duplicate and leaves the fingerprint listed.
pub proof fn law_duplicate_content_refused(
    pre: ContractView,
    first_ctx: CallContext,
    first_contributor: Address,
    first: StorePlanInputView,
    ctx: CallContext,
    contributor: Address,
    second: StorePlanInputView,
)
    requires
        pre.store_plan(first_ctx, first_contributor, first) is Ok,
        second.content_hash == first.content_hash,
        ctx.authorizes(contributor),
    ensures
        ({
            let mid = pre.after(
                Operation::StorePlan { ctx: first_ctx, contributor: first_contributor, input: first },
            );
            let again = Operation::StorePlan { ctx, contributor, input: second };
            &&& mid.storage.content.contains(first.content_hash)
            &&& mid.apply(again) == Err::<ContractView, Error>(Error::DuplicateContent)
            &&& mid.after(again) == mid
            &&& mid.after(again).storage.content.contains(first.content_hash)
        }),
{
}

/// Once set up, an authorized publish is refused as a duplicate exactly when
/// its fingerprint is listed, whatever identifier and contributor it names.
pub proof fn law_duplicate_content_exactly(
    pre: ContractView,
    ctx: CallContext,
    contributor: Address,
    input: StorePlanInputView,
)
    requires
        pre.storage.config is Some,
        ctx.authorizes(contributor),
    ensures
        pre.store_plan(ctx, contributor, input) == Err::<ContractView, Error>(
            Error::DuplicateContent,
        ) <==> pre.storage.content.contains(input.content_hash),
{
}

/// The plan published first under an identifier stays: a later publish under
/// that identifier is refused, with `DuplicateId` where its fingerprint is
/// new, and the stored plan, the fingerprints, every contributor's list, the
/// counters and the notifications are left as they were.
pub proof fn law_first_write_wins(
    pre: ContractView,
    ctx: CallContext,
    contributor: Address,
    input: StorePlanInputView,
)
    requires
        pre.storage.plans.dom().contains(input.id),
    ensures
        ({
            let op = Operation::StorePlan { ctx, contributor, input };
            &&& pre.apply(op) is Err
            &&& pre.after(op) == pre
            &&& pre.after(op).storage.plans[input.id] == pre.storage.plans[input.id]
            &&& pre.storage.config is Some && ctx.authorizes(contributor)
                && !pre.storage.content.contains(input.content_hash) ==> pre.apply(op) == Err::<
                ContractView,
                Error,
            >(Error::DuplicateId)
        }),
{
}

/// A publish that its contributor did not authorize is refused and changes
/// nothing, whatever it holds.
pub proof fn law_unauthorized_publish_changes_nothing(
    pre: ContractView,
    ctx: CallContext,
    contributor: Address,
    input: StorePlanInputView,
)
    requires
        !ctx.authorizes(contributor),
    ensures
        ({
            let op = Operation::StorePlan { ctx, contributor, input };
            &&& pre.apply(op) is Err
            &&& pre.after(op) == pre
            &&& pre.storage.config is Some ==> pre.apply(op) == Err::<ContractView, Error>(
                Error::Unauthorized,
            )
        }),
{
}

/// No call ever removes a fingerprint from the list.
pub proof fn law_content_is_never_removed(pre: ContractView, op: Operation, hash: ContentHash)
    requires
        pre.storage.content.contains(hash),
    ensures
        pre.after(op).storage.content.contains(hash),
{
}

/// The two shares of a positive amount add up to the amount, and the
/// contributor's share is the largest whole number that is at most `pct`
/// hundredths of the amount.
pub proof fn law_shares_are_exact(amount: i128, pct: u32)
    requires
        amount > 0,
        pct <= 100,
    ensures
        contributor_share_of(amount, pct) + operator_share_of(amount, pct) == amount,
        100 * contributor_share_of(amount, pct) <= amount * pct,
        amount * pct < 100 * (contributor_share_of(amount, pct) + 1),
        0 <= contributor_share_of(amount, pct) <= amount,
        0 <= operator_share_of(amount, pct) <= amount,
{
    let a = amount as int;
    let p = pct as int;
    assert(100 * ((a * p) / 100) <= a * p && a * p < 100 * ((a * p) / 100 + 1) && 0 <= (a * p)
        / 100 <= a) by (nonlinear_arith)
        requires
            a > 0,
            0 <= p <= 100,
    ;
}

/// A marketplace is set up at most once: a second attempt is refused, whatever
/// it asks for, and leaves the marketplace as the first one made it.
pub proof fn law_initialize_once(
    pre: ContractView,
    admin: Address,
    operator: Address,
    contributor_share_pct: u32,
    native_token: Address,
    other_admin: Address,
    other_operator: Address,
    other_share_pct: u32,
    other_token: Address,
)
    requires
        pre.initialize(admin, operator, contributor_share_pct, native_token) is Ok,
    ensures
        ({
            let mid = pre.after(
                Operation::Initialize { admin, operator, contributor_share_pct, native_token },
            );
            let again = Operation::Initialize {
                admin: other_admin,
                operator: other_operator,
                contributor_share_pct: other_share_pct,
                native_token: other_token,
            };
            &&& mid.apply(again) == Err::<ContractView, Error>(Error::AlreadyInitialized)
            &&& mid.after(again) == mid
            &&& mid.after(again).storage.config == mid.storage.config
        }),
{
}

/// Once set up, the admin, the share and the payment asset never change, and
/// the operator changes only when it is replaced.
pub proof fn law_settings_are_fixed(pre: ContractView, op: Operation)
    requires
        pre.storage.config is Some,
    ensures
        ({
            let before = pre.storage.config.unwrap();
            let post = pre.after(op);
            &&& post.storage.config is Some
            &&& post.storage.config.unwrap().admin == before.admin
            &&& post.storage.config.unwrap().contributor_share_pct == before.contributor_share_pct
            &&& post.storage.config.unwrap().native_token == before.native_token
            &&& !(op is SetOperator) ==> post.storage.config.unwrap().operator == before.operator
        }),
{
}

/// A purchase leaves the plan hot, whatever tier it was in, and raises the
/// plan's purchase count and the total of purchases by exactly one each.
pub proof fn law_purchase_promotes_and_counts(
    pre: ContractView,
    ctx: CallContext,
    buyer: Address,
    plan_id: PlanId,
    amount: i128,
    transfers: TransferOutcome,
)
    requires
        pre.storage.valid(),
        pre.admits(Operation::PurchasePlan { ctx, buyer, plan_id, amount, transfers }),
        pre.purchase_plan(ctx, buyer, plan_id, amount, transfers) is Ok,
    ensures
        ({
            let post = pre.after(Operation::PurchasePlan { ctx, buyer, plan_id, amount, transfers });
            &&& post.storage.plans.dom().contains(plan_id)
            &&& post.storage.plans[plan_id].tier == StorageTier::Hot
            &&& post.storage.plans[plan_id].purchase_count
                == pre.storage.plans[plan_id].purchase_count + 1
            &&& post.storage.stats.total_purchases == pre.storage.stats.total_purchases + 1
            &&& post.storage.stats.total_plans == pre.storage.stats.total_plans
        }),
{
}

/// A caller who is neither the admin nor the plan's contributor cannot move a
/// plan to another tier: the call is refused as unauthorized, and the plan
/// stays in its tier.
pub proof fn law_retier_needs_admin_or_contributor(
    pre: ContractView,
    ctx: CallContext,
    caller: Address,
    plan_id: PlanId,
    new_tier: StorageTier,
)
    requires
        pre.storage.config is Some,
        pre.storage.plans.dom().contains(plan_id),
        caller != pre.storage.config.unwrap().admin,
        caller != pre.storage.plans[plan_id].contributor,
    ensures
        ({
            let op = Operation::SetTier { ctx, caller, plan_id, new_tier };
            &&& pre.apply(op) == Err::<ContractView, Error>(Error::Unauthorized)
            &&& pre.after(op) == pre
            &&& pre.after(op).storage.plans[plan_id].tier == pre.storage.plans[plan_id].tier
        }),
{
}

/// The admin and the plan's contributor can each move a plan to another tier
/// by a call of their own; the plan is then in that tier.
pub proof fn law_retier_by_admin_or_contributor(
    pre: ContractView,
    ctx: CallContext,
    caller: Address,
    plan_id: PlanId,
    new_tier: StorageTier,
)
    requires
        pre.storage.valid(),
        pre.storage.config is Some,
        pre.storage.plans.dom().contains(plan_id),
        ctx.authorizes(caller),
        caller == pre.storage.config.unwrap().admin || caller
            == pre.storage.plans[plan_id].contributor,
    ensures
        ({
            let op = Operation::SetTier { ctx, caller, plan_id, new_tier };
            &&& pre.apply(op) is Ok
            &&& pre.after(op).storage.plans[plan_id].tier == new_tier
        }),
{
}

/// A refused call changes nothing.
pub proof fn law_refused_call_changes_nothing(pre: ContractView, op: Operation)
    requires
        pre.apply(op) is Err,
    ensures
        pre.after(op) == pre,
{
}

/// Nothing but setting up succeeds before the marketplace is set up.
pub proof fn law_nothing_runs_before_setup(pre: ContractView, op: Operation)
    requires
        pre.storage.config is None,
        !(op is Initialize),
    ensures
        pre.apply(op) == Err::<ContractView, Error>(Error::NotInitialized),
{
}

/// A purchase is refused exactly when its quote is, and for the same reason,
/// unless the transfers were rejected; where the quote is given and the
/// transfers went through, the receipt shows the shares of the quote.
pub proof fn law_quote_agrees_with_purchase(
    pre: StorageView,
    ctx: CallContext,
    buyer: Address,
    plan_id: PlanId,
    amount: i128,
    transfers: TransferOutcome,
)
    ensures
        match pre.quote_purchase(ctx, buyer, plan_id, amount) {
            Err(error) => pre.execute_purchase(ctx, buyer, plan_id, amount, transfers) == Err::<
                (StorageView, PurchaseRecord),
                Error,
            >(error),
            Ok(order) => match transfers {
                TransferOutcome::Rejected => pre.execute_purchase(
                    ctx,
                    buyer,
                    plan_id,
                    amount,
                    transfers,
                ) == Err::<(StorageView, PurchaseRecord), Error>(Error::TransferFailed),
                TransferOutcome::Completed => {
                    &&& pre.execute_purchase(ctx, buyer, plan_id, amount, transfers) is Ok
                    &&& pre.execute_purchase(
                        ctx,
                        buyer,
                        plan_id,
                        amount,
                        transfers,
                    ).unwrap().1.contributor_share == order.contributor_share
                    &&& pre.execute_purchase(
                        ctx,
                        buyer,
                        plan_id,
                        amount,
                        transfers,
                    ).unwrap().1.operator_share == order.operator_share
                },
            },
        },
{
}

/// No call shortens a retention promise.
pub proof fn law_retention_never_shortens(pre: ContractView, op: Operation, id: PlanId)
    requires
        pre.storage.valid(),
    ensures
        pre.after(op).storage.live_until_of(id) >= pre.storage.live_until_of(id),
{
}

/// After a plan has been published, retiered, refreshed or purchased, it is
/// promised to be kept for at least the window of the tier it is then in,
/// counted from the ledger of the call.
pub proof fn law_written_plan_is_retained(pre: ContractView, op: Operation)
    requires
        pre.storage.valid(),
        pre.apply(op) is Ok,
    ensures
        ({
            let post = pre.after(op);
            match op {
                Operation::StorePlan { ctx, input, .. } => post.storage.live_until_of(input.id)
                    >= ctx.sequence + window(StorageTier::Hot),
                Operation::SetTier { ctx, plan_id, new_tier, .. } => post.storage.live_until_of(
                    plan_id,
                ) >= ctx.sequence + window(new_tier),
                Operation::BumpPlanTtl { ctx, plan_id } => post.storage.live_until_of(plan_id)
                    >= ctx.sequence + window(pre.storage.plans[plan_id].tier),
                Operation::PurchasePlan { ctx, plan_id, .. } => post.storage.live_until_of(plan_id)
                    >= ctx.sequence + window(StorageTier::Hot),
                _ => true,
            }
        }),
{
}

/// A call issues one notification where it publishes, retiers or sells a plan,
/// and none otherwise; notifications already issued stay as they are.
pub proof fn law_notifications_are_appended(pre: ContractView, op: Operation)
    ensures
        ({
            let post = pre.after(op);
            let notifies = pre.apply(op) is Ok && (op is StorePlan || op is SetTier
                || op is PurchasePlan);
            &&& notifies ==> post.events.len() == pre.events.len() + 1
            &&& !notifies ==> post.events == pre.events
            &&& post.events.subrange(0, pre.events.len() as int) == pre.events
        }),
{
    let post = pre.after(op);
    assert(post.events.subrange(0, pre.events.len() as int) =~= pre.events);
}

/// The empty marketplace is consistent.
pub proof fn law_empty_is_consistent()
    ensures
        ContractView::empty().consistent(),
{
}

/// Every call keeps the marketplace consistent, provided no counter that it
/// raises is at its limit: no two plans ever share a fingerprint, every
/// plan's fingerprint stays listed, and every plan has as many receipts as
/// purchases, each split exactly.
pub proof fn law_consistency_is_kept(pre: ContractView, op: Operation)
    requires
        pre.consistent(),
        pre.admits(op),
    ensures
        pre.after(op).consistent(),
{
    let post = pre.after(op);
    if pre.apply(op) is Ok {
        match op {
            Operation::Initialize { .. } => {},
            Operation::SetOperator { .. } => {},
            Operation::StorePlan { ctx, contributor, input } => {
                lemma_publishing_keeps_consistency(pre, ctx, contributor, input);
            },
            Operation::SetTier { ctx, caller, plan_id, new_tier } => {
                lemma_retiering_keeps_consistency(pre, ctx, caller, plan_id, new_tier);
            },
            Operation::BumpPlanTtl { ctx, plan_id } => {
                lemma_refreshing_keeps_consistency(pre, ctx, plan_id);
            },
            Operation::PurchasePlan { ctx, buyer, plan_id, amount, transfers } => {
                lemma_purchasing_keeps_consistency(pre, ctx, buyer, plan_id, amount, transfers);
            },
        }
    }
}

/// No plan that is stored is ever purchased fewer times than before, changes
/// its contributor, its fingerprint or the time it was published, or goes
/// away.
pub proof fn law_plans_keep_their_identity(pre: ContractView, op: Operation, id: PlanId)
    requires
        pre.storage.valid(),
        pre.admits(op),
        pre.storage.plans.dom().contains(id),
    ensures
        ({
            let post = pre.after(op);
            &&& post.storage.plans.dom().contains(id)
            &&& post.storage.plans[id].purchase_count >= pre.storage.plans[id].purchase_count
            &&& post.storage.plans[id].contributor == pre.storage.plans[id].contributor
            &&& post.storage.plans[id].content_hash == pre.storage.plans[id].content_hash
            &&& post.storage.plans[id].created_at == pre.storage.plans[id].created_at
            &&& post.storage.plans[id].id == id
        }),
{
}

/// Both counters only ever grow.
pub proof fn law_counters_never_decrease(pre: ContractView, op: Operation)
    requires
        pre.storage.config is Some,
        pre.admits(op),
    ensures
        pre.after(op).storage.stats.total_plans >= pre.storage.stats.total_plans,
        pre.after(op).storage.stats.total_purchases >= pre.storage.stats.total_purchases,
{
}

/// A contributor's plans are listed in the order in which they were
/// published: publishing appends the new identifier, and no call changes
/// what is already listed.
pub proof fn law_contributor_plans_grow_in_order(pre: ContractView, op: Operation, who: Address)
    ensures
        ({
            let before = pre.storage.plan_ids_of(who);
            let post = pre.after(op).storage.plan_ids_of(who);
            match op {
                Operation::StorePlan { contributor, input, .. } => if pre.apply(op) is Ok
                    && contributor == who {
                    post == before.push(input.id)
                } else {
                    post == before
                },
                _ => post == before,
            }
        }),
{
}

proof fn lemma_publishing_keeps_consistency(
    pre: ContractView,
    ctx: CallContext,
    contributor: Address,
    input: StorePlanInputView,
)
    requires
        pre.consistent(),
        pre.admits(Operation::StorePlan { ctx, contributor, input }),
        pre.store_plan(ctx, contributor, input) is Ok,
    ensures
        pre.store_plan(ctx, contributor, input).unwrap().consistent(),
{
    let post = pre.store_plan(ctx, contributor, input).unwrap();
    let plan = published_plan(input, contributor, ctx.timestamp);
    assert(post.storage.live_until.dom() =~= post.storage.plans.dom());
    assert forall|id: PlanId| #[trigger] post.storage.plans.dom().contains(id) implies {
        &&& post.storage.plans[id].id == id
        &&& post.storage.content.contains(post.storage.plans[id].content_hash)
        &&& post.storage.purchases_of(id).len() == post.storage.plans[id].purchase_count
    } by {
        if id != input.id {
            assert(pre.storage.plans.dom().contains(id));
        } else {
            assert(!pre.storage.purchases.dom().contains(id));
        }
    }
    assert forall|a: PlanId, b: PlanId|
        #![trigger post.storage.plans[a], post.storage.plans[b]]
        post.storage.plans.dom().contains(a) && post.storage.plans.dom().contains(b) && a
            != b implies post.storage.plans[a].content_hash != post.storage.plans[b].content_hash by {
        if a != input.id {
            assert(pre.storage.plans.dom().contains(a));
        }
        if b != input.id {
            assert(pre.storage.plans.dom().contains(b));
        }
    }
    assert forall|id: PlanId, i: int| 0 <= i < post.storage.purchases_of(id).len() implies exact_split(
        #[trigger] post.storage.purchases_of(id)[i],
    ) by {
        assert(post.storage.purchases_of(id) == pre.storage.purchases_of(id));
    }
}

proof fn lemma_retiering_keeps_consistency(
    pre: ContractView,
    ctx: CallContext,
    caller: Address,
    plan_id: PlanId,
    new_tier: StorageTier,
)
    requires
        pre.consistent(),
        pre.set_tier(ctx, caller, plan_id, new_tier) is Ok,
    ensures
        pre.set_tier(ctx, caller, plan_id, new_tier).unwrap().consistent(),
{
    let post = pre.set_tier(ctx, caller, plan_id, new_tier).unwrap();
    assert(post.storage.live_until.dom() =~= post.storage.plans.dom());
    assert forall|id: PlanId| #[trigger] post.storage.plans.dom().contains(id) implies {
        &&& pre.storage.plans.dom().contains(id)
        &&& post.storage.plans[id].id == id
        &&& post.storage.plans[id].content_hash == pre.storage.plans[id].content_hash
        &&& post.storage.content.contains(post.storage.plans[id].content_hash)
        &&& post.storage.purchases_of(id).len() == post.storage.plans[id].purchase_count
    } by {
        assert(pre.storage.plans.dom().contains(id));
    }
    assert forall|a: PlanId, b: PlanId|
        #![trigger post.storage.plans[a], post.storage.plans[b]]
        post.storage.plans.dom().contains(a) && post.storage.plans.dom().contains(b) && a
            != b implies post.storage.plans[a].content_hash != post.storage.plans[b].content_hash by {
        assert(pre.storage.plans[a].content_hash != pre.storage.plans[b].content_hash);
    }
    assert forall|id: PlanId, i: int| 0 <= i < post.storage.purchases_of(id).len() implies exact_split(
        #[trigger] post.storage.purchases_of(id)[i],
    ) by {
        assert(post.storage.purchases_of(id) == pre.storage.purchases_of(id));
    }
}

proof fn lemma_refreshing_keeps_consistency(pre: ContractView, ctx: CallContext, plan_id: PlanId)
    requires
        pre.consistent(),
        pre.bump_plan_ttl(ctx, plan_id) is Ok,
    ensures
        pre.bump_plan_ttl(ctx, plan_id).unwrap().consistent(),
{
    let post = pre.bump_plan_ttl(ctx, plan_id).unwrap();
    assert(post.storage.live_until.dom() =~= post.storage.plans.dom());
    assert forall|id: PlanId, i: int| 0 <= i < post.storage.purchases_of(id).len() implies exact_split(
        #[trigger] post.storage.purchases_of(id)[i],
    ) by {
        assert(post.storage.purchases_of(id) == pre.storage.purchases_of(id));
    }
}

proof fn lemma_purchasing_keeps_consistency(
    pre: ContractView,
    ctx: CallContext,
    buyer: Address,
    plan_id: PlanId,
    amount: i128,
    transfers: TransferOutcome,
)
    requires
        pre.consistent(),
        pre.admits(Operation::PurchasePlan { ctx, buyer, plan_id, amount, transfers }),
        pre.purchase_plan(ctx, buyer, plan_id, amount, transfers) is Ok,
    ensures
        pre.purchase_plan(ctx, buyer, plan_id, amount, transfers).unwrap().0.consistent(),
{
    let post = pre.purchase_plan(ctx, buyer, plan_id, amount, transfers).unwrap().0;
    let record = pre.purchase_plan(ctx, buyer, plan_id, amount, transfers).unwrap().1;
    let pct = pre.storage.config.unwrap().contributor_share_pct;
    law_shares_are_exact(amount, pct);
    assert(exact_split(record));
    assert(post.storage.live_until.dom() =~= post.storage.plans.dom());
    assert forall|id: PlanId| #[trigger] post.storage.plans.dom().contains(id) implies {
        &&& pre.storage.plans.dom().contains(id)
        &&& post.storage.plans[id].id == id
        &&& post.storage.plans[id].content_hash == pre.storage.plans[id].content_hash
        &&& post.storage.content.contains(post.storage.plans[id].content_hash)
        &&& post.storage.purchases_of(id).len() == post.storage.plans[id].purchase_count
    } by {
        assert(pre.storage.plans.dom().contains(id));
    }
    assert forall|a: PlanId, b: PlanId|
        #![trigger post.storage.plans[a], post.storage.plans[b]]
        post.storage.plans.dom().contains(a) && post.storage.plans.dom().contains(b) && a
            != b implies post.storage.plans[a].content_hash != post.storage.plans[b].content_hash by {
        assert(pre.storage.plans[a].content_hash != pre.storage.plans[b].content_hash);
    }
    assert forall|id: PlanId, i: int| 0 <= i < post.storage.purchases_of(id).len() implies exact_split(
        #[trigger] post.storage.purchases_of(id)[i],
    ) by {
        if id == plan_id {
            assert(post.storage.purchases_of(id) == pre.storage.purchases_of(id).push(record));
            if i < pre.storage.purchases_of(id).len() {
                assert(post.storage.purchases_of(id)[i] == pre.storage.purchases_of(id)[i]);
            }
        } else {
            assert(post.storage.purchases_of(id) == pre.storage.purchases_of(id));
        }
    }
}

} // verus!
