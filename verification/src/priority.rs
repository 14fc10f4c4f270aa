//! Mapping from the configuration's integer priority level to a named
//! OS scheduling tier. The mapping is total: every integer resolves to a
//! tier, with `Normal` as the fallback for levels outside `[0, 5]`.

use vstd::prelude::*;

verus! {

/// A named OS scheduling priority tier, from least to most urgent.
#[derive(Clone, Copy, Debug, PartialEq, Eq, Structural)]
pub enum PriorityTier {
    Idle,
    BelowNormal,
    Normal,
    AboveNormal,
    High,
    Realtime,
}

/// The tier a priority level denotes: levels 0 through 5 name the six tiers
/// in order; every other level falls back to `Normal`.
pub open spec fn tier_of(level: i64) -> PriorityTier {
    if level == 0 {
        PriorityTier::Idle
    } else if level == 1 {
        PriorityTier::BelowNormal
    } else if level == 2 {
        PriorityTier::Normal
    } else if level == 3 {
        PriorityTier::AboveNormal
    } else if level == 4 {
        PriorityTier::High
    } else if level == 5 {
        PriorityTier::Realtime
    } else {
        PriorityTier::Normal
    }
}

/// Resolve a priority level to its tier. Total over all of `i64`: any level
/// outside `[0, 5]`, including negative ones, yields `Normal`.
pub fn map_priority(level: i64) -> (t: PriorityTier)
    ensures
        t == tier_of(level),
{
    if level == 0 {
        PriorityTier::Idle
    } else if level == 1 {
        PriorityTier::BelowNormal
    } else if level == 2 {
        PriorityTier::Normal
    } else if level == 3 {
        PriorityTier::AboveNormal
    } else if level == 4 {
        PriorityTier::High
    } else if level == 5 {
        PriorityTier::Realtime
    } else {
        PriorityTier::Normal
    }
}

/// The display label of each tier.
pub fn tier_label(t: PriorityTier) -> (s: &'static str)
    ensures
        t == PriorityTier::Idle ==> s@ == "Idle"@,
        t == PriorityTier::BelowNormal ==> s@ == "Below normal"@,
        t == PriorityTier::Normal ==> s@ == "Normal"@,
        t == PriorityTier::AboveNormal ==> s@ == "Above normal"@,
        t == PriorityTier::High ==> s@ == "High"@,
        t == PriorityTier::Realtime ==> s@ == "Realtime"@,
{
    match t {
        PriorityTier::Idle => "Idle",
        PriorityTier::BelowNormal => "Below normal",
        PriorityTier::Normal => "Normal",
        PriorityTier::AboveNormal => "Above normal",
        PriorityTier::High => "High",
        PriorityTier::Realtime => "Realtime",
    }
}

} // verus!
