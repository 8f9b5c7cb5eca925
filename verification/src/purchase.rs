use vstd::prelude::*;
use crate::error::Error;
use crate::laws::law_shares_are_exact;
use crate::model::{contributor_share_of, operator_share_of, StorageView};
use crate::plan::update_plan;
use crate::storage::Storage;
use crate::types::{
    Address, CallContext, KBStatsResult, PaymentOrder, PlanId, PurchaseRecord, StorageTier,
    TransferOutcome,
};

verus! {

/// Splits `amount` between contributor and operator: the contributor gets
/// `pct` percent, rounded down, and the operator the rest, so that nothing is
/// lost to rounding. Refused for an amount that is not positive and for a
/// share above one hundred percent.
pub fn split_payment(amount: i128, pct: u32) -> (shares: Result<(i128, i128), Error>)
    ensures
        amount <= 0 ==> shares == Err::<(i128, i128), Error>(Error::InvalidAmount),
        amount > 0 && pct > 100 ==> shares == Err::<(i128, i128), Error>(Error::InvalidPercentage),
        amount > 0 && pct <= 100 ==> shares is Ok && shares.unwrap().0 == contributor_share_of(
            amount,
            pct,
        ) && shares.unwrap().1 == operator_share_of(amount, pct),
{
    if amount <= 0 {
        return Err(Error::InvalidAmount);
    }
    if pct > 100 {
        return Err(Error::InvalidPercentage);
    }
    let percent: i128 = pct as i128;
    let hundreds: i128 = amount / 100;
    let rest: i128 = amount % 100;
    proof {
        law_shares_are_exact(amount, pct);
    }
    assert(0 <= hundreds * percent <= amount && 0 <= rest * percent <= 9900 && hundreds * percent
        + (rest * percent) / 100 == (amount * percent) / 100) by (nonlinear_arith)
        requires
            amount > 0,
            0 <= percent <= 100,
            hundreds == amount / 100,
            rest == amount % 100,
    ;
    let contributor_share: i128 = hundreds * percent + (rest * percent) / 100;
    let operator_share: i128 = amount - contributor_share;
    Ok((contributor_share, operator_share))
}

/// The transfers that a purchase asks for, before any money moves. Refused, in
/// this order, where the store is not set up, the buyer did not authorize the
/// call, the plan is unknown, or the amount is not positive.
pub fn quote_purchase(
    storage: &Storage,
    ctx: &CallContext,
    buyer: &Address,
    plan_id: &PlanId,
    amount: i128,
) -> (order: Result<PaymentOrder, Error>)
    requires
        storage.wf(),
    ensures
        order == storage@.quote_purchase(*ctx, *buyer, *plan_id, amount),
{
    proof {
        storage.lemma_valid();
    }
    let config = match storage.config() {
        Some(config) => config,
        None => {
            return Err(Error::NotInitialized);
        },
    };
    if !ctx.require_caller(buyer) {
        return Err(Error::Unauthorized);
    }
    let plan = match storage.get_plan(plan_id) {
        Some(plan) => plan,
        None => {
            return Err(Error::PlanNotFound);
        },
    };
    match split_payment(amount, config.contributor_share_pct) {
        Ok((contributor_share, operator_share)) => Ok(
            PaymentOrder {
                token: config.native_token,
                buyer: *buyer,
                contributor: plan.contributor,
                contributor_share: contributor_share,
                operator: config.operator,
                operator_share: operator_share,
            },
        ),
        Err(_) => Err(Error::InvalidAmount),
    }
}

/// Books a purchase whose transfers the caller has attempted. Refused, in this
/// order, where the store is not set up, the buyer did not authorize the call,
/// the plan is unknown, the amount is not positive, or the transfers were
/// rejected; a refused purchase changes nothing, whatever the counters hold.
/// Otherwise the receipt is
/// appended to the plan's purchases, the plan is counted once more and
/// promoted to hot with its retention refreshed, and the purchase counter is
/// raised by one.
pub fn execute_purchase(
    storage: &mut Storage,
    ctx: &CallContext,
    buyer: &Address,
    plan_id: &PlanId,
    amount: i128,
    transfers: TransferOutcome,
) -> (receipt: Result<PurchaseRecord, Error>)
    requires
        old(storage).wf(),
        old(storage)@.execute_purchase(*ctx, *buyer, *plan_id, amount, transfers) is Ok ==> old(
            storage,
        )@.stats.total_purchases < u32::MAX && old(storage)@.plans[*plan_id].purchase_count
            < u32::MAX,
    ensures
        final(storage).wf(),
        match receipt {
            Ok(record) => old(storage)@.execute_purchase(*ctx, *buyer, *plan_id, amount, transfers)
                == Ok::<(StorageView, PurchaseRecord), Error>((final(storage)@, record)),
            Err(error) => old(storage)@.execute_purchase(*ctx, *buyer, *plan_id, amount, transfers)
                == Err::<(StorageView, PurchaseRecord), Error>(error) && final(storage)@ == old(
                storage,
            )@,
        },
{
    proof {
        storage.lemma_valid();
    }
    let config = match storage.config() {
        Some(config) => config,
        None => {
            return Err(Error::NotInitialized);
        },
    };
    if !ctx.require_caller(buyer) {
        return Err(Error::Unauthorized);
    }
    let mut plan = match storage.get_plan(plan_id) {
        Some(plan) => plan,
        None => {
            return Err(Error::PlanNotFound);
        },
    };
    let (contributor_share, operator_share) = match split_payment(
        amount,
        config.contributor_share_pct,
    ) {
        Ok(shares) => shares,
        Err(_) => {
            return Err(Error::InvalidAmount);
        },
    };
    match transfers {
        TransferOutcome::Rejected => {
            return Err(Error::TransferFailed);
        },
        TransferOutcome::Completed => {},
    }
    let record = PurchaseRecord {
        buyer: *buyer,
        amount_stroops: amount,
        contributor_share: contributor_share,
        operator_share: operator_share,
        ledger: ctx.sequence,
    };
    storage.push_purchase(plan_id, record);
    plan.purchase_count = plan.purchase_count + 1;
    plan.tier = StorageTier::Hot;
    update_plan(storage, &plan, ctx.sequence);
    let stats = storage.stats();
    storage.set_stats(
        KBStatsResult {
            total_plans: stats.total_plans,
            total_purchases: stats.total_purchases + 1,
        },
    );
    Ok(record)
}

/// The purchases of the plan under `plan_id`, oldest first; empty where there
/// are none or the plan is unknown.
pub fn get_purchases(storage: &Storage, plan_id: &PlanId) -> (records: Vec<PurchaseRecord>)
    requires
        storage.wf(),
    ensures
        records@ == storage@.purchases_of(*plan_id),
{
    storage.get_purchases(plan_id)
}

} // verus!
