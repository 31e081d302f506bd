use chapeliser::abi::{
    FfiResult, GatherResult, GatherStrategy, MemoryBudget, Partition, PartitionStrategy, Slice,
};

#[test]
fn per_item_partition_is_valid() {
    let p = Partition::per_item(100, 4);
    assert!(p.verify(), "per-item partition should be valid");
    assert_eq!(p.slices.len(), 4);
    // 100 / 4 = 25 each
    assert_eq!(p.slices[0].count, 25);
    assert_eq!(p.slices[3].count, 25);
}

#[test]
fn per_item_partition_handles_remainder() {
    let p = Partition::per_item(10, 3);
    assert!(p.verify());
    // 10 / 3 = 3 base, 1 remainder: first locale gets 4, others get 3
    assert_eq!(p.slices[0].count, 4);
    assert_eq!(p.slices[1].count, 3);
    assert_eq!(p.slices[2].count, 3);
}

#[test]
fn chunked_partition_is_valid() {
    let p = Partition::chunked(100, 4, 10);
    assert!(p.verify(), "chunked partition should be valid");
}

#[test]
fn gather_conservation() {
    let g = GatherResult {
        total_results: 100,
        locale_counts: vec![25, 25, 25, 25],
        strategy: GatherStrategy::Merge,
    };
    assert!(g.verify_conservation());
}

#[test]
fn memory_budget_calculation() {
    let budget = MemoryBudget::calculate(500, 64, 10_485_760);
    assert!(budget.items_per_locale > 0);
    assert!(budget.total_mb > 0);
    // With 10MB per item and a handful of items: well under 500MB per locale
    assert!(budget.total_mb < 500, "should be reasonable for 9 items");
}

#[test]
fn partition_strategy_parsing() {
    assert_eq!(PartitionStrategy::from_str("per-item"), Some(PartitionStrategy::PerItem));
    assert_eq!(PartitionStrategy::from_str("adaptive"), Some(PartitionStrategy::Adaptive));
    assert_eq!(PartitionStrategy::from_str("invalid"), None);
}

#[test]
fn partition_strategy_parses_every_name() {
    assert_eq!(PartitionStrategy::from_str("chunk"), Some(PartitionStrategy::Chunk));
    assert_eq!(PartitionStrategy::from_str("spatial"), Some(PartitionStrategy::Spatial));
    assert_eq!(PartitionStrategy::from_str("keyed"), Some(PartitionStrategy::Keyed));
    assert_eq!(PartitionStrategy::from_str(""), None);
    assert_eq!(PartitionStrategy::from_str("Per-Item"), None);
    assert_eq!(PartitionStrategy::from_str("per-item "), None);
}

#[test]
fn gather_strategy_parses_every_name() {
    assert_eq!(GatherStrategy::from_str("merge"), Some(GatherStrategy::Merge));
    assert_eq!(GatherStrategy::from_str("reduce"), Some(GatherStrategy::Reduce));
    assert_eq!(GatherStrategy::from_str("tree-reduce"), Some(GatherStrategy::TreeReduce));
    assert_eq!(GatherStrategy::from_str("stream"), Some(GatherStrategy::Stream));
    assert_eq!(GatherStrategy::from_str("first"), Some(GatherStrategy::First));
    assert_eq!(GatherStrategy::from_str("tree_reduce"), None);
    assert_eq!(GatherStrategy::from_str("per-item"), None);
}

#[test]
fn ffi_result_codes_match_the_c_boundary() {
    assert_eq!(FfiResult::Success.code(), 0);
    assert_eq!(FfiResult::Error.code(), 1);
    assert_eq!(FfiResult::InvalidParam.code(), 2);
    assert_eq!(FfiResult::OutOfMemory.code(), 3);
    assert_eq!(FfiResult::NullPointer.code(), 4);
    assert_eq!(FfiResult::RetryExhausted.code(), 5);
    assert_eq!(FfiResult::CheckpointError.code(), 6);
}

fn starts_and_counts(p: &Partition) -> Vec<(u64, u64)> {
    p.slices.iter().map(|s| (s.start, s.count)).collect()
}

#[test]
fn per_item_slices_lie_end_to_end() {
    let p = Partition::per_item(10, 3);
    assert_eq!(starts_and_counts(&p), vec![(0, 4), (4, 3), (7, 3)]);
    assert_eq!(p.total_items, 10);
    assert_eq!(p.num_locales, 3);
    assert_eq!(p.grain_size, 1);
}

#[test]
fn per_item_with_more_locales_than_items() {
    let p = Partition::per_item(2, 5);
    assert_eq!(starts_and_counts(&p), vec![(0, 1), (1, 1), (2, 0), (2, 0), (2, 0)]);
    assert!(p.verify());
}

#[test]
fn per_item_of_nothing_is_valid() {
    let p = Partition::per_item(0, 4);
    assert_eq!(starts_and_counts(&p), vec![(0, 0), (0, 0), (0, 0), (0, 0)]);
    assert!(p.verify());
}

#[test]
fn per_item_single_locale_takes_everything() {
    let p = Partition::per_item(u64::MAX, 1);
    assert_eq!(starts_and_counts(&p), vec![(0, u64::MAX)]);
    assert!(p.verify());
}

#[test]
fn per_item_counts_are_balanced() {
    let p = Partition::per_item(1003, 7);
    let max = p.slices.iter().map(|s| s.count).max().unwrap();
    let min = p.slices.iter().map(|s| s.count).min().unwrap();
    assert!(max - min <= 1);
    assert_eq!(p.slices.iter().map(|s| s.count).sum::<u64>(), 1003);
}

#[test]
fn chunked_slices_are_whole_chunks() {
    let p = Partition::chunked(100, 4, 10);
    // 10 chunks, 3 per locale: 30 items each until the items run out
    assert_eq!(starts_and_counts(&p), vec![(0, 30), (30, 30), (60, 30), (90, 10)]);
    assert_eq!(p.grain_size, 10);
}

#[test]
fn chunked_with_few_items_leaves_empty_tail() {
    let p = Partition::chunked(5, 4, 10);
    assert_eq!(starts_and_counts(&p), vec![(0, 5), (5, 0), (5, 0), (5, 0)]);
    assert!(p.verify());
}

#[test]
fn chunked_of_nothing_is_valid() {
    let p = Partition::chunked(0, 3, 4);
    assert_eq!(starts_and_counts(&p), vec![(0, 0), (0, 0), (0, 0)]);
    assert!(p.verify());
}

fn partition_of(total_items: u64, slices: Vec<(u64, u64)>) -> Partition {
    Partition {
        total_items,
        num_locales: slices.len() as u32,
        grain_size: 1,
        slices: slices.into_iter().map(|(start, count)| Slice { start, count }).collect(),
    }
}

#[test]
fn overlapping_slices_are_rejected() {
    let p = partition_of(20, vec![(0, 10), (5, 10)]);
    assert!(p.verify_completeness());
    assert!(!p.verify_no_overlap());
    assert!(!p.verify());
}

#[test]
fn missing_items_are_rejected() {
    let p = partition_of(20, vec![(0, 10), (10, 5)]);
    assert!(!p.verify_completeness());
    assert!(p.verify_no_overlap());
    assert!(!p.verify());
}

#[test]
fn excess_items_are_rejected() {
    let p = partition_of(10, vec![(0, 10), (10, 5)]);
    assert!(!p.verify_completeness());
    assert!(!p.verify());
}

#[test]
fn counts_beyond_64_bits_are_incomplete_not_a_panic() {
    let p = partition_of(u64::MAX, vec![(0, u64::MAX), (u64::MAX, u64::MAX)]);
    assert!(!p.verify_completeness());
    assert!(p.verify_no_overlap());
}

#[test]
fn slices_far_apart_do_not_overlap() {
    let p = partition_of(u64::MAX, vec![(u64::MAX - 1, u64::MAX), (0, 1)]);
    assert!(p.verify_no_overlap());
}

#[test]
fn empty_slice_shares_no_index() {
    let p = partition_of(10, vec![(0, 10), (5, 0)]);
    assert!(p.verify_no_overlap());
    assert!(p.verify());
    let q = partition_of(10, vec![(5, 0), (0, 10), (5, 0)]);
    assert!(q.verify_no_overlap());
}

#[test]
fn overlap_check_ignores_slice_order() {
    let p = partition_of(20, vec![(0, 10), (5, 10)]);
    let q = partition_of(20, vec![(5, 10), (0, 10)]);
    assert_eq!(p.verify_no_overlap(), q.verify_no_overlap());
    assert!(!q.verify_no_overlap());
    let r = partition_of(20, vec![(10, 10), (0, 10)]);
    assert!(r.verify());
}

#[test]
fn empty_partition_of_nothing_is_valid() {
    let p = partition_of(0, vec![]);
    assert!(p.verify());
}

#[test]
fn gather_conservation_detects_loss() {
    let g = GatherResult {
        total_results: 100,
        locale_counts: vec![25, 25, 25],
        strategy: GatherStrategy::Reduce,
    };
    assert!(!g.verify_conservation());
    let h = GatherResult {
        total_results: 1,
        locale_counts: vec![u64::MAX, 2],
        strategy: GatherStrategy::Stream,
    };
    assert!(!h.verify_conservation());
    let e = GatherResult { total_results: 0, locale_counts: vec![], strategy: GatherStrategy::First };
    assert!(e.verify_conservation());
}

#[test]
fn memory_budget_exact_figures() {
    let budget = MemoryBudget::calculate(500, 64, 10_485_760);
    // 500 / 64 = 7, plus one
    assert_eq!(budget.items_per_locale, 8);
    assert_eq!(budget.input_bytes, 83_886_080);
    assert_eq!(budget.output_bytes, 83_886_080);
    assert_eq!(budget.metadata_bytes, 72);
    assert_eq!(budget.total_bytes, 167_772_232);
    // 160 MB and 72 bytes, rounded up
    assert_eq!(budget.total_mb, 161);
}

#[test]
fn memory_budget_rounds_whole_megabytes_exactly() {
    // 1 item per locale, 524_288 bytes each way, 9 bytes of bookkeeping
    let budget = MemoryBudget::calculate(0, 1, 524_288);
    assert_eq!(budget.total_bytes, 1_048_585);
    assert_eq!(budget.total_mb, 2);
    let zero = MemoryBudget::calculate(0, 1, 0);
    assert_eq!(zero.total_bytes, 9);
    assert_eq!(zero.total_mb, 1);
}
