use std::collections::BTreeMap;
use zk_benchmarks::tracker::{order_entries, CycleEntry};
use zk_benchmarks::{ExecutionStats, ZkBenchExecutionStatsSummary};

fn entries(pairs: &[(&str, u64)]) -> Vec<CycleEntry> {
    pairs.iter().map(|(name, cycles)| CycleEntry { name: name.to_string(), cycles: *cycles }).collect()
}

fn pairs(entries: &[CycleEntry]) -> Vec<(String, u64)> {
    entries.iter().map(|entry| (entry.name.clone(), entry.cycles)).collect()
}

#[test]
fn entries_come_in_name_order() {
    let ordered = order_entries(entries(&[("b", 2), ("", 0), ("ab", 3), ("a", 1)]));
    assert_eq!(ordered, entries(&[("", 0), ("a", 1), ("ab", 3), ("b", 2)]));
    assert_eq!(order_entries(Vec::new()), Vec::new());
}

#[test]
fn later_entry_overrides_earlier_one() {
    let ordered = order_entries(entries(&[("x", 1), ("a", 2), ("x", 3)]));
    assert_eq!(ordered, entries(&[("a", 2), ("x", 3)]));
}

#[test]
fn walk_order_is_immaterial() {
    let one = order_entries(entries(&[("c", 3), ("a", 1), ("b", 2)]));
    let other = order_entries(entries(&[("b", 2), ("c", 3), ("a", 1)]));
    assert_eq!(one, other);
}

#[test]
fn order_is_that_of_strings() {
    let given = [("é", 1), ("z", 2), ("Z", 3), ("zz", 4), ("\u{10FFFF}", 5), ("\u{FFFF}", 6), ("_", 7)];
    let map: BTreeMap<String, u64> =
        given.iter().map(|(name, cycles)| (name.to_string(), *cycles)).collect();
    let ordered = order_entries(entries(&given));
    assert_eq!(pairs(&ordered), map.into_iter().collect::<Vec<(String, u64)>>());
}

#[test]
fn stats_are_carried_over() {
    let summary = ZkBenchExecutionStatsSummary::from(ExecutionStats {
        total_instruction_cycles: 1,
        total_sp1_gas: 2,
        cycle_tracker: entries(&[("n", 9), ("m", 8)]),
        witness_generation_ms: 3,
        execution_ms: 4,
    });
    assert_eq!(summary.total_instruction_cycles, 1);
    assert_eq!(summary.total_sp1_gas, 2);
    assert_eq!(summary.cycle_tracker, entries(&[("m", 8), ("n", 9)]));
    assert_eq!(summary.witness_generation_ms, 3);
    assert_eq!(summary.execution_ms, 4);
}
