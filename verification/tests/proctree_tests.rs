use sidecar_supervisor::proctree::{
    collect_descendants, kill_process_tree, termination_order, ProcessEntry,
};

fn entry(pid: u32, parent: Option<u32>) -> ProcessEntry {
    ProcessEntry { pid, parent }
}

fn two_level_table() -> Vec<ProcessEntry> {
    vec![
        entry(1, None),
        entry(2, Some(1)),
        entry(3, Some(1)),
        entry(4, Some(2)),
        entry(5, Some(3)),
        entry(9, Some(7)),
    ]
}

#[test]
fn collects_two_levels_of_descendants() {
    // Two levels below the root: all four descendants are found, none of
    // the unrelated processes, each exactly once.
    let table = two_level_table();
    let found = collect_descendants(&table, 1);
    let mut sorted = found.clone();
    sorted.sort();
    assert_eq!(sorted, vec![2, 3, 4, 5]);
    for (i, a) in found.iter().enumerate() {
        for b in &found[i + 1..] {
            assert_ne!(a, b);
        }
    }
}

#[test]
fn discovery_puts_parents_first() {
    let table = two_level_table();
    let found = collect_descendants(&table, 1);
    let pos = |p: u32| found.iter().position(|&x| x == p).unwrap();
    assert!(pos(2) < pos(4));
    assert!(pos(3) < pos(5));
}

#[test]
fn termination_asks_children_first() {
    // The kill order is the reverse of discovery: every process comes
    // before the parent it was found under, and the root is not in the
    // list at all — it is killed last, through its own handle.
    let table = two_level_table();
    let order = termination_order(&table, 1);
    let pos = |p: u32| order.iter().position(|&x| x == p).unwrap();
    assert!(pos(4) < pos(2));
    assert!(pos(5) < pos(3));
    assert!(!order.contains(&1));
    let mut sorted = order.clone();
    sorted.sort();
    assert_eq!(sorted, vec![2, 3, 4, 5]);
}

#[test]
fn no_descendants_found_for_leaf() {
    let table = two_level_table();
    assert!(collect_descendants(&table, 4).is_empty());
    assert!(termination_order(&table, 9).is_empty());
}

#[test]
fn unlisted_pids_never_targeted() {
    // Only pids of the snapshot can be in the order: a root absent from
    // the table has no descendants to target.
    let table = two_level_table();
    let order = termination_order(&table, 1);
    for pid in order {
        assert!(table.iter().any(|e| e.pid == pid));
    }
    assert!(termination_order(&table, 1234).is_empty());
}

#[test]
fn duplicate_rows_counted_once() {
    let table = vec![entry(2, Some(1)), entry(2, Some(1)), entry(3, Some(2))];
    let found = collect_descendants(&table, 1);
    let mut sorted = found.clone();
    sorted.sort();
    assert_eq!(sorted, vec![2, 3]);
}

#[test]
fn killing_a_tree_without_descendants_targets_nothing() {
    // A root nothing descends from: the live snapshot is taken, no pid
    // is targeted, and nothing is killed.
    let targeted = kill_process_tree(u32::MAX);
    assert!(targeted.is_empty());
}
