//! The fee tier engine: pure functions from cumulative completed volume to a
//! tier and from a tier to a fee rate in basis points.

use vstd::prelude::*;

use crate::types::Balance;

verus! {

/// Cumulative volume (scaled units) at which the middle tier begins.
pub const TIER1_THRESHOLD: u128 = 10_000_000 * 1_000_000;

/// Cumulative volume (scaled units) at which the top tier begins.
pub const TIER2_THRESHOLD: u128 = 100_000_000 * 1_000_000;

/// The tier selected by a cumulative volume.
pub open spec fn spec_tier_for_volume(volume: Balance) -> u8 {
    if volume >= TIER2_THRESHOLD {
        2
    } else if volume >= TIER1_THRESHOLD {
        1
    } else {
        0
    }
}

/// The fee rate of a tier, in basis points. Tiers outside the three defined
/// ones fall back to the base rate; with tiers always computed by
/// [`spec_tier_for_volume`] that arm is unreachable.
pub open spec fn spec_fee_for_tier(tier: u8) -> u16 {
    if tier == 0 {
        100
    } else if tier == 1 {
        80
    } else if tier == 2 {
        50
    } else {
        100
    }
}

/// How much more volume must accumulate before the next tier begins;
/// zero at the top tier.
pub open spec fn spec_volume_to_next_tier(volume: Balance, tier: u8) -> int {
    if tier == 0 {
        TIER1_THRESHOLD - volume
    } else if tier == 1 {
        TIER2_THRESHOLD - volume
    } else {
        0
    }
}

/// Maps cumulative volume to its fee tier.
pub fn tier_for_volume(volume: Balance) -> (tier: u8)
    ensures
        tier == spec_tier_for_volume(volume),
{
    if volume >= TIER2_THRESHOLD {
        2
    } else if volume >= TIER1_THRESHOLD {
        1
    } else {
        0
    }
}

/// Maps a tier to its fee rate in basis points.
pub fn fee_for_tier(tier: u8) -> (bps: u16)
    ensures
        bps == spec_fee_for_tier(tier),
{
    match tier {
        0 => 100,
        1 => 80,
        2 => 50,
        _ => 100,
    }
}

/// The tier is a monotone function of cumulative volume: more volume never
/// selects a lower tier.
pub proof fn lemma_tier_monotonic(v1: Balance, v2: Balance)
    requires
        v1 <= v2,
    ensures
        spec_tier_for_volume(v1) <= spec_tier_for_volume(v2),
{
}

} // verus!
