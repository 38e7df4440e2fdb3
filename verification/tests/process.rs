use sysmon::process::ProcessRecord;
use sysmon::process::ProcessSample;
use sysmon::process::build_process_records;
use sysmon::process::make_record;
use sysmon::process::sorted_records;

fn sample(pid: u64, name: &str) -> ProcessSample {
    ProcessSample {
        pid,
        name: name.to_string(),
        cpu: "0.00".to_string(),
        memory_bytes: pid * 1000,
        disk_read_bytes: pid,
        disk_write_bytes: pid + 1,
    }
}

fn names(records: &[ProcessRecord]) -> Vec<String> {
    records.iter().map(|r| r.name.clone()).collect()
}

#[test]
fn record_carries_raw_counters_and_decimal_id() {
    let r = make_record(ProcessSample {
        pid: 42,
        name: "worker".to_string(),
        cpu: "1.23".to_string(),
        memory_bytes: 123456,
        disk_read_bytes: 7,
        disk_write_bytes: 8,
    });
    assert_eq!(r.id, "42");
    assert_eq!(r.name, "worker");
    assert_eq!(r.cpu_percent, "1.23");
    assert_eq!(r.memory_bytes, 123456);
    assert_eq!(r.disk_read_bytes, 7);
    assert_eq!(r.disk_write_bytes, 8);
}

#[test]
fn listing_sorts_ascending_by_name() {
    let samples = vec![sample(3, "zsh"), sample(1, "bash"), sample(2, "init")];
    let records = build_process_records(samples, &None);
    assert_eq!(names(&records), vec!["bash", "init", "zsh"]);
}

#[test]
fn equal_names_keep_snapshot_order() {
    let samples = vec![sample(3, "bash"), sample(1, "alpha"), sample(9, "bash"), sample(2, "zsh")];
    let records = build_process_records(samples, &None);
    assert_eq!(names(&records), vec!["alpha", "bash", "bash", "zsh"]);
    assert_eq!(records[1].id, "3");
    assert_eq!(records[2].id, "9");
}

#[test]
fn sort_is_byte_wise_and_case_sensitive() {
    let samples = vec![sample(1, "b"), sample(2, "A"), sample(3, "Z"), sample(4, "a")];
    let records = build_process_records(samples, &None);
    assert_eq!(names(&records), vec!["A", "Z", "a", "b"]);
}

#[test]
fn prefix_filter_keeps_exactly_the_matching_subset() {
    let samples = vec![sample(1, "go"), sample(2, "bash"), sample(3, "git"), sample(4, "a")];
    let all = build_process_records(
        vec![sample(1, "go"), sample(2, "bash"), sample(3, "git"), sample(4, "a")],
        &None,
    );
    let filtered = build_process_records(samples, &Some("g".to_string()));
    assert_eq!(names(&filtered), vec!["git", "go"]);
    let expected: Vec<ProcessRecord> =
        all.into_iter().filter(|r| r.name.starts_with("g")).collect();
    assert_eq!(filtered, expected);
}

#[test]
fn prefix_filter_is_exact_not_substring() {
    let samples = vec![sample(1, "agit"), sample(2, "git")];
    let filtered = build_process_records(samples, &Some("git".to_string()));
    assert_eq!(names(&filtered), vec!["git"]);
}

#[test]
fn empty_prefix_keeps_everything() {
    let samples = vec![sample(1, "b"), sample(2, "a")];
    let filtered = build_process_records(samples, &Some(String::new()));
    assert_eq!(names(&filtered), vec!["a", "b"]);
}

#[test]
fn unmatched_prefix_gives_the_empty_listing() {
    let samples = vec![sample(1, "bash")];
    let filtered = build_process_records(samples, &Some("zz".to_string()));
    assert!(filtered.is_empty());
}

#[test]
fn empty_process_snapshot_gives_the_empty_listing() {
    let records = build_process_records(Vec::new(), &None);
    assert!(records.is_empty());
}

#[test]
fn pipeline_is_deterministic_over_equal_snapshots() {
    let build = || {
        build_process_records(
            vec![sample(5, "ssh"), sample(2, "cron"), sample(8, "ssh"), sample(1, "x")],
            &Some("s".to_string()),
        )
    };
    assert_eq!(build(), build());
}

#[test]
fn sorting_alone_preserves_every_record() {
    let records = vec![
        make_record(sample(2, "b")),
        make_record(sample(1, "a")),
        make_record(sample(3, "b")),
    ];
    let sorted = sorted_records(records);
    assert_eq!(names(&sorted), vec!["a", "b", "b"]);
    assert_eq!(sorted[1].id, "2");
    assert_eq!(sorted[2].id, "3");
}
