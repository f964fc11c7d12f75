use nextest_runner::filter::{RunIgnored, TestFilterBuilder};
use nextest_runner::model::{TestCase, TestCatalog};
use nextest_runner::partition::{PartitionKind, Partitioner, SelectionError};
use nextest_runner::selection::CaseStatus;
use nextest_runner::stable_hash::stable_hash;

fn case(binary_id: &str, name: &str, ignored: bool) -> TestCase {
    TestCase { binary_id: binary_id.to_string(), name: name.to_string(), ignored }
}

fn sample_catalog() -> TestCatalog {
    TestCatalog {
        cases: vec![
            case("binA", "t1", false),
            case("binA", "t2", true),
            case("binB", "t3", false),
        ],
    }
}

#[test]
fn example_selection_only_default() {
    let catalog = sample_catalog();
    let filter = TestFilterBuilder::new(RunIgnored::Default, None, vec![]);
    let sel = filter.select(&catalog);
    assert_eq!(
        sel.statuses,
        vec![CaseStatus::Executing, CaseStatus::SkippedIgnored, CaseStatus::Executing]
    );
    assert_eq!(sel.executing_indices(), vec![0, 2]);
    assert_eq!(sel.executing_count(), 2);
}

#[test]
fn ignored_only_mode_inverts() {
    let catalog = sample_catalog();
    let filter = TestFilterBuilder::new(RunIgnored::IgnoredOnly, None, vec![]);
    let sel = filter.select(&catalog);
    assert_eq!(
        sel.statuses,
        vec![CaseStatus::SkippedIgnored, CaseStatus::Executing, CaseStatus::SkippedIgnored]
    );
}

#[test]
fn all_mode_takes_everything() {
    let catalog = sample_catalog();
    let filter = TestFilterBuilder::new(RunIgnored::All, None, vec![]);
    let sel = filter.select(&catalog);
    assert_eq!(sel.executing_count(), 3);
}

#[test]
fn name_filter_substring() {
    let catalog = TestCatalog {
        cases: vec![
            case("b", "net_connect", false),
            case("b", "fs_read", false),
            case("b", "net_listen", false),
        ],
    };
    let filter = TestFilterBuilder::new(RunIgnored::Default, None, vec!["net".to_string()]);
    let sel = filter.select(&catalog);
    assert_eq!(
        sel.statuses,
        vec![CaseStatus::Executing, CaseStatus::SkippedNameFiltered, CaseStatus::Executing]
    );
}

#[test]
fn name_filter_any_of_several() {
    let catalog = TestCatalog {
        cases: vec![case("b", "alpha", false), case("b", "beta", false), case("b", "gamma", false)],
    };
    let filter = TestFilterBuilder::new(
        RunIgnored::Default,
        None,
        vec!["alp".to_string(), "gam".to_string()],
    );
    let sel = filter.select(&catalog);
    assert_eq!(
        sel.statuses,
        vec![CaseStatus::Executing, CaseStatus::SkippedNameFiltered, CaseStatus::Executing]
    );
}

#[test]
fn empty_name_filter_means_no_restriction() {
    let catalog = sample_catalog();
    let filter = TestFilterBuilder::new(RunIgnored::All, None, vec![]);
    let sel = filter.select(&catalog);
    assert_eq!(sel.executing_count(), 3);
}

#[test]
fn partitioner_rejects_total_zero() {
    let r = Partitioner::new(PartitionKind::Hash, 1, 0);
    assert_eq!(r, Err(SelectionError::InvalidPartition { index: 1, total: 0 }));
}

#[test]
fn partitioner_rejects_index_zero() {
    let r = Partitioner::new(PartitionKind::Count, 0, 3);
    assert_eq!(r, Err(SelectionError::InvalidPartition { index: 0, total: 3 }));
}

#[test]
fn partitioner_rejects_index_above_total() {
    let r = Partitioner::new(PartitionKind::Hash, 4, 3);
    assert_eq!(r, Err(SelectionError::InvalidPartition { index: 4, total: 3 }));
}

#[test]
fn partitioner_accepts_range() {
    let p = Partitioner::new(PartitionKind::Hash, 3, 3).unwrap();
    assert_eq!(p.index, 3);
    assert_eq!(p.total, 3);
}

fn wide_catalog() -> TestCatalog {
    let mut cases = Vec::new();
    for i in 0..9 {
        cases.push(case(
            if i % 2 == 0 { "binA" } else { "binB" },
            &format!("case_{}", i),
            i % 4 == 3,
        ));
    }
    TestCatalog { cases }
}

fn executing_of(catalog: &TestCatalog, partitioner: Option<Partitioner>) -> Vec<usize> {
    let filter = TestFilterBuilder::new(RunIgnored::Default, partitioner, vec![]);
    filter.select(catalog).executing_indices()
}

#[test]
fn hash_partition_union_is_filtered_set() {
    let catalog = wide_catalog();
    let unpartitioned = executing_of(&catalog, None);
    let total = 3;
    let mut union: Vec<usize> = Vec::new();
    for index in 1..=total {
        let shard =
            executing_of(&catalog, Some(Partitioner::new(PartitionKind::Hash, index, total).unwrap()));
        for idx in shard {
            assert!(!union.contains(&idx), "case {} appears in two shards", idx);
            union.push(idx);
        }
    }
    union.sort();
    assert_eq!(union, unpartitioned);
}

#[test]
fn count_partition_union_is_filtered_set() {
    let catalog = wide_catalog();
    let unpartitioned = executing_of(&catalog, None);
    let total = 4;
    let mut union: Vec<usize> = Vec::new();
    for index in 1..=total {
        let shard = executing_of(
            &catalog,
            Some(Partitioner::new(PartitionKind::Count, index, total).unwrap()),
        );
        for idx in shard {
            assert!(!union.contains(&idx), "case {} appears in two shards", idx);
            union.push(idx);
        }
    }
    union.sort();
    assert_eq!(union, unpartitioned);
}

#[test]
fn count_partition_is_round_robin_on_filtered_positions() {
    let catalog = TestCatalog {
        cases: vec![
            case("b", "a0", false),
            case("b", "a1", true),
            case("b", "a2", false),
            case("b", "a3", false),
            case("b", "a4", false),
        ],
    };
    let shard1 =
        executing_of(&catalog, Some(Partitioner::new(PartitionKind::Count, 1, 2).unwrap()));
    let shard2 =
        executing_of(&catalog, Some(Partitioner::new(PartitionKind::Count, 2, 2).unwrap()));
    // filtered sequence is a0, a2, a3, a4 at positions 0..4; shard = pos % 2 + 1
    assert_eq!(shard1, vec![0, 3]);
    assert_eq!(shard2, vec![2, 4]);
}

#[test]
fn hash_partition_is_deterministic_across_calls() {
    let h1 = stable_hash("binA", "case_1");
    let h2 = stable_hash("binA", "case_1");
    assert_eq!(h1, h2);
    let catalog = wide_catalog();
    let p = Partitioner::new(PartitionKind::Hash, 2, 3).unwrap();
    let first = executing_of(&catalog, Some(p));
    let second = executing_of(&catalog, Some(p));
    assert_eq!(first, second);
}

#[test]
fn hash_distinguishes_identifier_parts() {
    // the separator between binary id and name matters: (ab, c) and (a, bc)
    // are different identifiers
    let h1 = stable_hash("ab", "c");
    let h2 = stable_hash("a", "bc");
    assert_ne!(h1, h2);
}
