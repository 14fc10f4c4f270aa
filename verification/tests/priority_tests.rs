//! Tests of the priority mapping: total, exhaustive, with the `Normal`
//! fallback for any level outside `[0, 5]`.

use cpu_affinity::priority::{map_priority, tier_label, PriorityTier};

#[test]
fn mapping_is_total_and_exhaustive() {
    let cases: [(i64, PriorityTier); 9] = [
        (-5, PriorityTier::Normal),
        (0, PriorityTier::Idle),
        (1, PriorityTier::BelowNormal),
        (2, PriorityTier::Normal),
        (3, PriorityTier::AboveNormal),
        (4, PriorityTier::High),
        (5, PriorityTier::Realtime),
        (6, PriorityTier::Normal),
        (1000, PriorityTier::Normal),
    ];
    for (level, tier) in cases {
        assert_eq!(map_priority(level), tier);
    }
}

#[test]
fn extreme_levels_fall_back_to_normal() {
    assert_eq!(map_priority(i64::MIN), PriorityTier::Normal);
    assert_eq!(map_priority(i64::MAX), PriorityTier::Normal);
}

#[test]
fn labels_match_tiers() {
    assert_eq!(tier_label(PriorityTier::Idle), "Idle");
    assert_eq!(tier_label(PriorityTier::BelowNormal), "Below normal");
    assert_eq!(tier_label(PriorityTier::Normal), "Normal");
    assert_eq!(tier_label(PriorityTier::AboveNormal), "Above normal");
    assert_eq!(tier_label(PriorityTier::High), "High");
    assert_eq!(tier_label(PriorityTier::Realtime), "Realtime");
}
