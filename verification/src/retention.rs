use vstd::prelude::*;
use crate::types::StorageTier;

verus! {

/// Ledgers a hot plan is kept for after a refresh (about 31 days).
pub const TTL_HOT: u32 = 535_680;

/// Ledgers a cold plan is kept for after a refresh (about 15 days).
pub const TTL_COLD: u32 = 267_840;

/// Ledgers an archived plan is kept for after a refresh (about 7 days).
pub const TTL_ARCHIVE: u32 = 120_960;

/// The retention window of a tier, in ledgers.
pub open spec fn window(tier: StorageTier) -> u32 {
    match tier {
        StorageTier::Hot => TTL_HOT,
        StorageTier::Cold => TTL_COLD,
        StorageTier::Archive => TTL_ARCHIVE,
    }
}

/// The ledger until which a record is kept once its window for `tier` has been
/// refreshed at ledger `sequence`: the later of what it was already promised
/// and the end of the new window.
pub open spec fn extended(live_until: u64, sequence: u32, tier: StorageTier) -> u64 {
    if live_until >= sequence + window(tier) {
        live_until
    } else {
        (sequence + window(tier)) as u64
    }
}

/// The retention window of a tier, in ledgers.
pub fn window_for(tier: StorageTier) -> (ledgers: u32)
    ensures
        ledgers == window(tier),
{
    match tier {
        StorageTier::Hot => TTL_HOT,
        StorageTier::Cold => TTL_COLD,
        StorageTier::Archive => TTL_ARCHIVE,
    }
}

/// Refreshes a retention promise: the result is never earlier than the promise
/// already given, and never earlier than a full window from `sequence`.
pub fn extend(live_until: u64, sequence: u32, tier: StorageTier) -> (until: u64)
    ensures
        until == extended(live_until, sequence, tier),
        until >= live_until,
        until >= sequence + window(tier),
{
    let wanted: u64 = sequence as u64 + window_for(tier) as u64;
    if live_until >= wanted {
        live_until
    } else {
        wanted
    }
}

/// A hotter tier is kept longer: hot outlasts cold, and cold outlasts archive.
pub proof fn law_windows_are_ordered()
    ensures
        window(StorageTier::Hot) > window(StorageTier::Cold),
        window(StorageTier::Cold) > window(StorageTier::Archive),
        window(StorageTier::Archive) > 0,
{
}

/// Refreshing twice at the same ledger and tier promises no more than
/// refreshing once.
pub proof fn law_refresh_is_idempotent(live_until: u64, sequence: u32, tier: StorageTier)
    ensures
        extended(extended(live_until, sequence, tier), sequence, tier) == extended(
            live_until,
            sequence,
            tier,
        ),
{
}

} // verus!
