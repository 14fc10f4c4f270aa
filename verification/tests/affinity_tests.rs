//! Tests of affinity resolution: explicit masks, the auto tiers, the
//! sentinel short-circuit, and out-of-range indices.

use cpu_affinity::affinity::{auto_mask, logical_cores, mask_hex, resolve_mask};
use cpu_affinity::model::CoreSelector;

fn nums(xs: &[i64]) -> Vec<CoreSelector> {
    let mut v = Vec::new();
    for x in xs {
        v.push(CoreSelector::Num(*x));
    }
    v
}

#[test]
fn auto_tiers_exact_values() {
    assert_eq!(auto_mask(1), 0);
    assert_eq!(auto_mask(3), 0);
    assert_eq!(auto_mask(4), 0b1111);
    assert_eq!(auto_mask(5), 0b1111 << 1);
    assert_eq!(auto_mask(7), 0b1111 << 3);
    assert_eq!(auto_mask(8), 0b10101010);
    assert_eq!(auto_mask(16), 0b10101010);
    assert_eq!(auto_mask(128), 0b10101010);
}

#[test]
fn sentinel_triggers_auto() {
    assert_eq!(resolve_mask(&nums(&[-1]), 8), 0b10101010);
    assert_eq!(resolve_mask(&nums(&[-1]), 2), 0);
    assert_eq!(resolve_mask(&nums(&[-1]), 6), 0b1111 << 2);
}

#[test]
fn scan_short_circuits_on_sentinel() {
    for cores in [1, 3, 4, 7, 8, 64] {
        assert_eq!(
            resolve_mask(&nums(&[2, -1, 5]), cores),
            resolve_mask(&nums(&[-1]), cores)
        );
    }
}

#[test]
fn explicit_indices_set_their_bits() {
    assert_eq!(resolve_mask(&nums(&[0]), 8), 1);
    assert_eq!(resolve_mask(&nums(&[1, 3]), 8), 0b1010);
    assert_eq!(resolve_mask(&nums(&[63]), 8), 1u64 << 63);
}

#[test]
fn duplicate_indices_are_idempotent() {
    assert_eq!(resolve_mask(&nums(&[1, 1, 1]), 8), 0b10);
}

#[test]
fn out_of_range_indices_ignored() {
    assert_eq!(resolve_mask(&nums(&[1, 9999]), 8), 0b10);
    assert_eq!(resolve_mask(&nums(&[64]), 8), 0);
    assert_eq!(resolve_mask(&nums(&[-2]), 8), 0);
    assert_eq!(resolve_mask(&nums(&[i64::MAX, i64::MIN, 2]), 8), 0b100);
}

#[test]
fn non_integer_elements_ignored() {
    let list = vec![CoreSelector::Other, CoreSelector::Num(1), CoreSelector::Other];
    assert_eq!(resolve_mask(&list, 8), 0b10);
}

#[test]
fn empty_list_disables_affinity() {
    assert_eq!(resolve_mask(&Vec::new(), 1), 0);
    assert_eq!(resolve_mask(&Vec::new(), 64), 0);
}

#[test]
fn mask_renders_as_upper_hex() {
    assert_eq!(mask_hex(0), b"0".to_vec());
    assert_eq!(mask_hex(0b10101010), b"AA".to_vec());
    assert_eq!(mask_hex(0b1111 << 3), b"78".to_vec());
    assert_eq!(mask_hex(1u64 << 63), b"8000000000000000".to_vec());
    assert_eq!(mask_hex(u64::MAX), b"FFFFFFFFFFFFFFFF".to_vec());
}

#[test]
fn at_least_one_core_reported() {
    assert!(logical_cores() >= 1);
}
