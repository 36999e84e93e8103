use gdb_stub::breakpoints::{BreakpointTable, BP_SMALL_MAX};
use std::collections::HashSet;

#[test]
fn empty_table_contains_nothing() {
    let t = BreakpointTable::new();
    assert!(!t.contains(0));
    assert!(!t.contains(0x1000));
    assert_eq!(t.len(), 0);
    assert!(matches!(t, BreakpointTable::Small(_)));
}

#[test]
fn insert_then_contains_then_remove() {
    let mut t = BreakpointTable::new();
    t.insert(0x1000);
    assert!(t.contains(0x1000));
    assert!(!t.contains(0x1008));
    assert_eq!(t.len(), 1);
    t.remove(0x1000);
    assert!(!t.contains(0x1000));
    assert_eq!(t.len(), 0);
}

#[test]
fn insert_is_idempotent() {
    let mut t = BreakpointTable::new();
    t.insert(42);
    t.insert(42);
    t.insert(42);
    assert_eq!(t.len(), 1);
    assert!(t.contains(42));
}

#[test]
fn remove_absent_is_noop() {
    let mut t = BreakpointTable::new();
    t.insert(7);
    t.remove(99);
    assert_eq!(t.len(), 1);
    assert!(t.contains(7));
}

#[test]
fn transition_happens_exactly_at_threshold() {
    let mut t = BreakpointTable::new();
    for i in 0..BP_SMALL_MAX as u64 {
        t.insert(i * 8);
        assert!(
            matches!(t, BreakpointTable::Small(_)),
            "table must stay small through {} insertions",
            BP_SMALL_MAX
        );
    }
    assert_eq!(t.len(), BP_SMALL_MAX);
    // The (BP_SMALL_MAX + 1)-th distinct address flips the variant...
    t.insert(BP_SMALL_MAX as u64 * 8);
    assert!(matches!(t, BreakpointTable::Large(_)));
    assert_eq!(t.len(), BP_SMALL_MAX + 1);
    // ...and every prior address stays queryable.
    for i in 0..=BP_SMALL_MAX as u64 {
        assert!(t.contains(i * 8), "address {} lost across the transition", i * 8);
    }
}

#[test]
fn inserting_present_address_at_capacity_does_not_transition() {
    let mut t = BreakpointTable::new();
    for i in 0..BP_SMALL_MAX as u64 {
        t.insert(i);
    }
    t.insert(5);
    assert!(matches!(t, BreakpointTable::Small(_)));
    assert_eq!(t.len(), BP_SMALL_MAX);
}

#[test]
fn removal_never_downgrades() {
    let mut t = BreakpointTable::new();
    for i in 0..=BP_SMALL_MAX as u64 {
        t.insert(i);
    }
    assert!(matches!(t, BreakpointTable::Large(_)));
    for i in 0..=BP_SMALL_MAX as u64 {
        t.remove(i);
    }
    assert_eq!(t.len(), 0);
    assert!(matches!(t, BreakpointTable::Large(_)));
}

#[test]
fn membership_is_variant_independent() {
    // Run one interleaved insert/remove sequence that crosses the
    // small-to-large transition and compare against a plain set model.
    let mut t = BreakpointTable::new();
    let mut model: HashSet<u64> = HashSet::new();
    let ops: Vec<(bool, u64)> = (0..100u64)
        .map(|i| {
            let insert = i % 3 != 2;
            let addr = (i * 37) % 60;
            (insert, addr)
        })
        .collect();
    for &(insert, addr) in &ops {
        if insert {
            t.insert(addr);
            model.insert(addr);
        } else {
            t.remove(addr);
            model.remove(&addr);
        }
        for a in 0..60u64 {
            assert_eq!(
                t.contains(a),
                model.contains(&a),
                "membership of {} diverged from the model",
                a
            );
        }
    }
    assert_eq!(t.len(), model.len());
}
