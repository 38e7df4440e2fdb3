use sysmon::commands::KillOutcome;
use sysmon::commands::Route;
use sysmon::commands::file_systems;
use sysmon::commands::get_metrics;
use sysmon::commands::kill_outcome;
use sysmon::commands::kill_process;
use sysmon::commands::os_info;
use sysmon::commands::os_info_from;
use sysmon::commands::process_info;

#[test]
fn kill_outcome_keeps_absent_distinct_from_unconfirmed() {
    assert_eq!(kill_outcome(None), KillOutcome::Absent);
    assert_eq!(kill_outcome(Some(true)), KillOutcome::Confirmed);
    assert_eq!(kill_outcome(Some(false)), KillOutcome::Unconfirmed);
    assert_ne!(KillOutcome::Absent, KillOutcome::Unconfirmed);
}

#[test]
fn kill_on_an_id_absent_from_the_snapshot_returns_absent() {
    let listing = process_info(None);
    let mut candidate: usize = 3_900_000;
    while listing.iter().any(|r| r.id == candidate.to_string()) {
        candidate += 1;
    }
    assert_eq!(kill_process(candidate), KillOutcome::Absent);
}

#[test]
fn os_info_from_fills_in_unknown() {
    assert_eq!(os_info_from(Some("Linux".to_string())).name, "Linux");
    assert_eq!(os_info_from(None).name, "unknown");
    assert_eq!(os_info_from(Some(String::new())).name, "unknown");
}

#[test]
fn os_info_is_stable_and_never_empty() {
    let name = os_info().name;
    assert!(!name.is_empty());
    assert_eq!(name, os_info().name);
}

#[test]
fn live_process_listing_is_sorted_by_name() {
    let listing = process_info(None);
    for pair in listing.windows(2) {
        assert!(pair[0].name <= pair[1].name);
    }
}

#[test]
fn live_filtered_listing_matches_the_prefix() {
    let all = process_info(None);
    if let Some(first) = all.first() {
        let prefix = first.name.clone();
        let filtered = process_info(Some(prefix.clone()));
        for r in &filtered {
            assert!(r.name.starts_with(&prefix));
        }
    }
}

#[test]
fn live_disk_listing_renders_magnitudes() {
    for r in file_systems() {
        for field in [&r.total, &r.available, &r.used] {
            let unit = field.split_once(' ').expect("value and unit").1;
            assert!(matches!(unit, "bytes" | "KB" | "MB" | "GB" | "TB"));
        }
    }
}

#[test]
fn live_metrics_render_and_parse() {
    let m = get_metrics();
    for field in [&m.used_memory, &m.total_memory, &m.free_memory, &m.used_swap, &m.total_swap,
        &m.free_swap] {
        let (value, unit) = field.split_once(' ').expect("value and unit");
        assert!(value.parse::<f64>().is_ok());
        assert!(matches!(unit, "bytes" | "KB" | "MB" | "GB" | "TB"));
    }
    for cpu in &m.per_cpu_usage {
        assert!(cpu.parse::<f32>().is_ok());
    }
}

#[test]
fn routes_name_the_two_views() {
    assert_eq!(Route::Processes, Route::Processes);
    assert_ne!(Route::Processes, Route::FileSystems);
}
