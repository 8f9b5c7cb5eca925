use vstd::prelude::*;

verus! {

/// Identifier of a plan: sixteen opaque bytes chosen by the publisher.
pub type PlanId = [u8; 16];

/// Fingerprint of the content a plan points at.
pub type ContentHash = [u8; 32];

/// An account identifier in its textual key form.
#[derive(Clone, Copy, Debug, PartialEq, Eq, Hash)]
pub struct Address {
    pub strkey: [u8; 56],
}

/// Retention class of a plan: the hotter the tier, the longer its record is
/// guaranteed to persist after each refresh.
#[derive(Clone, Copy, Debug, PartialEq, Eq, Structural)]
pub enum StorageTier {
    Hot,
    Cold,
    Archive,
}

/// Running totals of the marketplace.
#[derive(Clone, Copy, Debug, PartialEq, Eq, Structural)]
pub struct KBStatsResult {
    pub total_plans: u32,
    pub total_purchases: u32,
}

/// Receipt of one purchase: who paid, how much, and how the amount was split.
#[derive(Clone, Copy, Debug, PartialEq, Eq)]
pub struct PurchaseRecord {
    pub buyer: Address,
    pub amount_stroops: i128,
    pub contributor_share: i128,
    pub operator_share: i128,
    pub ledger: u32,
}

/// What a contributor hands in to publish a plan.
#[derive(Debug, PartialEq, Eq)]
pub struct StorePlanInput {
    pub id: PlanId,
    pub title: String,
    pub description: String,
    pub content_hash: ContentHash,
    pub ipfs_cid: String,
    pub tags: Vec<String>,
    pub domain: String,
    pub language: String,
    pub framework: String,
    pub quality_score: u32,
}

/// The record kept for a published plan.
#[derive(Debug, PartialEq, Eq)]
pub struct PlanMeta {
    pub id: PlanId,
    pub title: String,
    pub description: String,
    pub content_hash: ContentHash,
    pub ipfs_cid: String,
    pub tags: Vec<String>,
    pub domain: String,
    pub language: String,
    pub framework: String,
    pub contributor: Address,
    pub quality_score: u32,
    pub purchase_count: u32,
    pub tier: StorageTier,
    pub created_at: u64,
}

/// Mathematical value of a [`StorePlanInput`].
pub struct StorePlanInputView {
    pub id: PlanId,
    pub title: Seq<char>,
    pub description: Seq<char>,
    pub content_hash: ContentHash,
    pub ipfs_cid: Seq<char>,
    pub tags: Seq<Seq<char>>,
    pub domain: Seq<char>,
    pub language: Seq<char>,
    pub framework: Seq<char>,
    pub quality_score: u32,
}

/// Mathematical value of a [`PlanMeta`].
pub struct PlanMetaView {
    pub id: PlanId,
    pub title: Seq<char>,
    pub description: Seq<char>,
    pub content_hash: ContentHash,
    pub ipfs_cid: Seq<char>,
    pub tags: Seq<Seq<char>>,
    pub domain: Seq<char>,
    pub language: Seq<char>,
    pub framework: Seq<char>,
    pub contributor: Address,
    pub quality_score: u32,
    pub purchase_count: u32,
    pub tier: StorageTier,
    pub created_at: u64,
}

/// The texts held by a list of strings, in order.
pub open spec fn texts(strings: Seq<String>) -> Seq<Seq<char>> {
    Seq::new(strings.len(), |i: int| strings[i]@)
}

impl View for StorePlanInput {
    type V = StorePlanInputView;

    open spec fn view(&self) -> StorePlanInputView {
        StorePlanInputView {
            id: self.id,
            title: self.title@,
            description: self.description@,
            content_hash: self.content_hash,
            ipfs_cid: self.ipfs_cid@,
            tags: texts(self.tags@),
            domain: self.domain@,
            language: self.language@,
            framework: self.framework@,
            quality_score: self.quality_score,
        }
    }
}

impl View for PlanMeta {
    type V = PlanMetaView;

    open spec fn view(&self) -> PlanMetaView {
        PlanMetaView {
            id: self.id,
            title: self.title@,
            description: self.description@,
            content_hash: self.content_hash,
            ipfs_cid: self.ipfs_cid@,
            tags: texts(self.tags@),
            domain: self.domain@,
            language: self.language@,
            framework: self.framework@,
            contributor: self.contributor,
            quality_score: self.quality_score,
            purchase_count: self.purchase_count,
            tier: self.tier,
            created_at: self.created_at,
        }
    }
}

/// Whether two byte arrays hold the same bytes.
pub fn same_bytes<const N: usize>(a: &[u8; N], b: &[u8; N]) -> (same: bool)
    ensures
        same == (*a == *b),
{
    let mut i: usize = 0;
    while i < N
        invariant
            i <= N,
            forall|j: int| 0 <= j < i ==> a[j] == b[j],
        decreases N - i,
    {
        if a[i] != b[i] {
            return false;
        }
        i += 1;
    }
    assert(*a =~= *b);
    true
}

/// A fresh list holding the same strings as `tags`.
pub fn clone_tags(tags: &Vec<String>) -> (copy: Vec<String>)
    ensures
        texts(copy@) == texts(tags@),
{
    let mut copy: Vec<String> = Vec::new();
    let mut i: usize = 0;
    while i < tags.len()
        invariant
            i <= tags.len(),
            copy.len() == i,
            forall|j: int| 0 <= j < i ==> copy[j]@ == tags[j]@,
        decreases tags.len() - i,
    {
        copy.push(tags[i].clone());
        i += 1;
    }
    assert(texts(copy@) =~= texts(tags@));
    copy
}

impl Address {
    /// The account with the given key text.
    pub fn new(strkey: [u8; 56]) -> (address: Address)
        ensures
            address.strkey == strkey,
    {
        Address { strkey }
    }

    /// Whether both identifiers name the same account.
    pub fn same(&self, other: &Address) -> (same: bool)
        ensures
            same == (*self == *other),
    {
        same_bytes(&self.strkey, &other.strkey)
    }
}

impl Clone for StorePlanInput {
    fn clone(&self) -> (copy: Self)
        ensures
            copy@ == self@,
    {
        StorePlanInput {
            id: self.id,
            title: self.title.clone(),
            description: self.description.clone(),
            content_hash: self.content_hash,
            ipfs_cid: self.ipfs_cid.clone(),
            tags: clone_tags(&self.tags),
            domain: self.domain.clone(),
            language: self.language.clone(),
            framework: self.framework.clone(),
            quality_score: self.quality_score,
        }
    }
}

impl Clone for PlanMeta {
    fn clone(&self) -> (copy: Self)
        ensures
            copy@ == self@,
    {
        PlanMeta {
            id: self.id,
            title: self.title.clone(),
            description: self.description.clone(),
            content_hash: self.content_hash,
            ipfs_cid: self.ipfs_cid.clone(),
            tags: clone_tags(&self.tags),
            domain: self.domain.clone(),
            language: self.language.clone(),
            framework: self.framework.clone(),
            contributor: self.contributor,
            quality_score: self.quality_score,
            purchase_count: self.purchase_count,
            tier: self.tier,
            created_at: self.created_at,
        }
    }
}

/// The settings fixed when the marketplace is set up.
#[derive(Clone, Copy, Debug, PartialEq, Eq)]
pub struct Config {
    /// Who may change the operator and retier any plan.
    pub admin: Address,
    /// Who receives the operator's cut of every sale.
    pub operator: Address,
    /// The contributor's part of every sale, in percent.
    pub contributor_share_pct: u32,
    /// The asset in which sales are paid.
    pub native_token: Address,
}

/// What the host reports about the call being served: the accounts that
/// authorized it, the time, and the ledger it runs in.
#[derive(Debug, PartialEq, Eq)]
pub struct CallContext {
    pub authorized: Vec<Address>,
    pub timestamp: u64,
    pub sequence: u32,
}

/// How the two transfers of a sale ended.
#[derive(Clone, Copy, Debug, PartialEq, Eq, Structural)]
pub enum TransferOutcome {
    /// Both transfers went through.
    Completed,
    /// At least one transfer was rejected.
    Rejected,
}

/// The two transfers that pay for a sale, both out of the buyer's account.
#[derive(Clone, Copy, Debug, PartialEq, Eq)]
pub struct PaymentOrder {
    pub token: Address,
    pub buyer: Address,
    pub contributor: Address,
    pub contributor_share: i128,
    pub operator: Address,
    pub operator_share: i128,
}

impl CallContext {
    /// Whether `account` authorized the call.
    pub open spec fn authorizes(self, account: Address) -> bool {
        self.authorized@.contains(account)
    }

    /// Whether `account` authorized the call.
    pub fn require_caller(&self, account: &Address) -> (authorized: bool)
        ensures
            authorized == self.authorizes(*account),
    {
        let mut i: usize = 0;
        while i < self.authorized.len()
            invariant
                i <= self.authorized.len(),
                forall|j: int| 0 <= j < i ==> self.authorized[j] != *account,
            decreases self.authorized.len() - i,
        {
            if self.authorized[i].same(account) {
                return true;
            }
            i += 1;
        }
        false
    }
}

/// The plan that a contributor's input becomes when it is published at time
/// `created_at`: hot, and never purchased.
pub open spec fn published_plan(
    input: StorePlanInputView,
    contributor: Address,
    created_at: u64,
) -> PlanMetaView {
    PlanMetaView {
        id: input.id,
        title: input.title,
        description: input.description,
        content_hash: input.content_hash,
        ipfs_cid: input.ipfs_cid,
        tags: input.tags,
        domain: input.domain,
        language: input.language,
        framework: input.framework,
        contributor: contributor,
        quality_score: input.quality_score,
        purchase_count: 0,
        tier: StorageTier::Hot,
        created_at: created_at,
    }
}

} // verus!
