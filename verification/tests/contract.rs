use synapse_contract::error::Error;
use synapse_contract::types::{
    Address, CallContext, ContentHash, PlanId, StorageTier, StorePlanInput, TransferOutcome,
};
use synapse_contract::SynapseContract;

fn account(tag: u8) -> Address {
    let mut strkey = [b'A'; 56];
    strkey[0] = b'G';
    strkey[55] = tag;
    Address::new(strkey)
}

fn call(authorized: &[Address]) -> CallContext {
    CallContext { authorized: authorized.to_vec(), timestamp: 0, sequence: 0 }
}

fn setup_env() -> (SynapseContract, Address, Address, Address) {
    let mut client = SynapseContract::new();
    let admin = account(1);
    let operator = account(2);
    let native_token = account(3);
    assert_eq!(client.initialize(admin, operator, 70u32, native_token), Ok(()));
    (client, admin, operator, native_token)
}

fn make_plan_id(val: u8) -> PlanId {
    let mut bytes = [0u8; 16];
    bytes[0] = val;
    bytes
}

fn make_content_hash(val: u8) -> ContentHash {
    let mut bytes = [0u8; 32];
    bytes[0] = val;
    bytes
}

fn make_input(id: PlanId, hash: ContentHash, title: &str, score: u32) -> StorePlanInput {
    StorePlanInput {
        id,
        title: title.to_string(),
        description: "Description".to_string(),
        content_hash: hash,
        ipfs_cid: "QmTestCid".to_string(),
        tags: Vec::new(),
        domain: "".to_string(),
        language: "".to_string(),
        framework: "".to_string(),
        quality_score: score,
    }
}

#[test]
fn test_initialize() {
    let (client, _admin, _operator, _native_token) = setup_env();

    let stats = client.get_stats();
    assert_eq!(stats.total_plans, 0);
    assert_eq!(stats.total_purchases, 0);
    assert_eq!(client.get_share_pct(), Ok(70));
}

#[test]
fn test_double_initialize() {
    let (mut client, admin, operator, native_token) = setup_env();
    let admin2 = account(11);
    let op2 = account(12);
    let tok2 = account(13);
    let refused = client.initialize(admin2, op2, 50u32, tok2);
    assert_eq!(refused, Err(Error::AlreadyInitialized));
    assert_eq!(Error::AlreadyInitialized.message(), "Already initialized");

    let config = client.storage().config().unwrap();
    assert_eq!(config.admin, admin);
    assert_eq!(config.operator, operator);
    assert_eq!(config.contributor_share_pct, 70);
    assert_eq!(config.native_token, native_token);
}

#[test]
fn test_store_and_get_plan() {
    let (mut client, _admin, _operator, _native_token) = setup_env();
    let contributor = account(20);
    let plan_id = make_plan_id(1);
    let content_hash = make_content_hash(1);

    let ctx = CallContext { authorized: vec![contributor], timestamp: 1700000000, sequence: 100 };

    let input = StorePlanInput {
        id: plan_id,
        title: "Test Plan".to_string(),
        description: "A test plan description".to_string(),
        content_hash,
        ipfs_cid: "QmTest123".to_string(),
        tags: vec!["rust".to_string(), "soroban".to_string()],
        domain: "blockchain".to_string(),
        language: "rust".to_string(),
        framework: "soroban-sdk".to_string(),
        quality_score: 85,
    };

    assert_eq!(client.store_plan(&ctx, contributor, input.clone()), Ok(()));

    let plan = client.get_plan(plan_id).unwrap();
    assert_eq!(plan.quality_score, 85);
    assert_eq!(plan.purchase_count, 0);
    assert_eq!(plan.created_at, 1700000000);

    assert_eq!(plan.id, plan_id);
    assert_eq!(plan.title, "Test Plan");
    assert_eq!(plan.description, "A test plan description");
    assert_eq!(plan.content_hash, content_hash);
    assert_eq!(plan.ipfs_cid, "QmTest123");
    assert_eq!(plan.tags, vec!["rust".to_string(), "soroban".to_string()]);
    assert_eq!(plan.domain, "blockchain");
    assert_eq!(plan.language, "rust");
    assert_eq!(plan.framework, "soroban-sdk");
    assert_eq!(plan.contributor, contributor);
    assert_eq!(plan.tier, StorageTier::Hot);

    let stats = client.get_stats();
    assert_eq!(stats.total_plans, 1);
}

#[test]
fn test_content_exists() {
    let (mut client, _admin, _operator, _native_token) = setup_env();
    let contributor = account(20);
    let plan_id = make_plan_id(2);
    let content_hash = make_content_hash(2);

    assert!(!client.content_exists(content_hash));

    let input = make_input(plan_id, content_hash, "Plan 2", 50);
    assert_eq!(client.store_plan(&call(&[contributor]), contributor, input), Ok(()));

    assert!(client.content_exists(content_hash));
}

#[test]
fn test_duplicate_content() {
    let (mut client, _admin, _operator, _native_token) = setup_env();
    let contributor = account(20);
    let content_hash = make_content_hash(3);

    let input1 = make_input(make_plan_id(3), content_hash, "Plan A", 50);
    let input2 = make_input(make_plan_id(4), content_hash, "Plan B", 50);

    let ctx = call(&[contributor]);
    assert_eq!(client.store_plan(&ctx, contributor, input1), Ok(()));
    assert_eq!(client.store_plan(&ctx, contributor, input2), Err(Error::DuplicateContent));
    assert_eq!(Error::DuplicateContent.message(), "Content with this hash already exists");

    assert!(client.content_exists(content_hash));
    assert!(client.get_plan(make_plan_id(4)).is_none());
    assert_eq!(client.get_plan(make_plan_id(3)).unwrap().title, "Plan A");
    assert_eq!(client.get_stats().total_plans, 1);
    assert_eq!(client.get_contributor_plans(contributor), vec![make_plan_id(3)]);
    assert_eq!(client.events().len(), 1);
}

#[test]
fn test_contributor_plans() {
    let (mut client, _admin, _operator, _native_token) = setup_env();
    let contributor = account(20);

    let input1 = make_input(make_plan_id(10), make_content_hash(10), "P1", 80);
    let input2 = make_input(make_plan_id(11), make_content_hash(11), "P2", 90);

    let ctx = call(&[contributor]);
    assert_eq!(client.store_plan(&ctx, contributor, input1), Ok(()));
    assert_eq!(client.store_plan(&ctx, contributor, input2), Ok(()));

    let plans = client.get_contributor_plans(contributor);
    assert_eq!(plans.len(), 2);
    assert_eq!(plans, vec![make_plan_id(10), make_plan_id(11)]);
}

#[test]
fn test_purchase_plan() {
    let (mut client, _admin, operator, native_token) = setup_env();
    let contributor = account(20);
    let buyer = account(21);

    // The buyer starts with exactly the price of the plan.
    let mut buyer_balance: i128 = 10_000_000_i128;
    let mut contributor_balance: i128 = 0;
    let mut operator_balance: i128 = 0;

    let plan_id = make_plan_id(20);
    let input = make_input(plan_id, make_content_hash(20), "Buyable", 70);
    assert_eq!(client.store_plan(&call(&[contributor]), contributor, input), Ok(()));

    let ctx = call(&[buyer]);
    let order = client.quote_purchase(&ctx, buyer, plan_id, 10_000_000_i128).unwrap();
    assert_eq!(order.token, native_token);
    assert_eq!(order.buyer, buyer);
    assert_eq!(order.contributor, contributor);
    assert_eq!(order.operator, operator);
    buyer_balance -= order.contributor_share;
    contributor_balance += order.contributor_share;
    buyer_balance -= order.operator_share;
    operator_balance += order.operator_share;

    let record = client
        .purchase_plan(&ctx, buyer, plan_id, 10_000_000_i128, TransferOutcome::Completed)
        .unwrap();
    assert_eq!(record.contributor_share, 7_000_000);
    assert_eq!(record.operator_share, 3_000_000);

    // Check plan purchase count incremented
    let plan = client.get_plan(plan_id).unwrap();
    assert_eq!(plan.purchase_count, 1);

    // Check purchase history
    let purchases = client.get_purchases(plan_id);
    assert_eq!(purchases.len(), 1);
    assert_eq!(purchases[0], record);

    let stats = client.get_stats();
    assert_eq!(stats.total_purchases, 1);

    // Check token balances
    assert_eq!(contributor_balance, 7_000_000);
    assert_eq!(operator_balance, 3_000_000);
    assert_eq!(buyer_balance, 0);
}

#[test]
fn test_set_tier() {
    let (mut client, _admin, _operator, _native_token) = setup_env();
    let contributor = account(20);
    let plan_id = make_plan_id(30);
    let input = make_input(plan_id, make_content_hash(30), "Tiered", 60);
    let ctx = call(&[contributor]);
    assert_eq!(client.store_plan(&ctx, contributor, input), Ok(()));

    let plan = client.get_plan(plan_id).unwrap();
    assert_eq!(plan.tier, StorageTier::Hot);

    assert_eq!(client.set_tier(&ctx, contributor, plan_id, StorageTier::Cold), Ok(()));

    let plan = client.get_plan(plan_id).unwrap();
    assert_eq!(plan.tier, StorageTier::Cold);
}
