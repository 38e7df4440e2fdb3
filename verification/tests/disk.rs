use sysmon::disk::DiskSample;
use sysmon::disk::build_disk_records;
use sysmon::disk::make_disk_record;

fn sample(device: &str, total: u64, available: u64) -> DiskSample {
    DiskSample {
        device: device.to_string(),
        mount_point: format!("/mnt/{}", device),
        filesystem_type: "ext4".to_string(),
        total,
        available,
    }
}

#[test]
fn used_is_total_minus_available_on_raw_bytes() {
    let r = make_disk_record(sample("sda1", 1000, 400));
    assert_eq!(r.total, "1000.00 bytes");
    assert_eq!(r.available, "400.00 bytes");
    assert_eq!(r.used, "600.00 bytes");
}

#[test]
fn used_subtracts_before_formatting_not_after() {
    // 2 GB total, 1 GB available: used is exactly 1 GB, not a difference
    // of two rounded strings.
    let gb: u64 = 1024 * 1024 * 1024;
    let r = make_disk_record(sample("sdb1", 2 * gb, gb));
    assert_eq!(r.total, "2.00 GB");
    assert_eq!(r.available, "1.00 GB");
    assert_eq!(r.used, "1.00 GB");
}

#[test]
fn used_clamps_to_zero_when_available_exceeds_total() {
    let r = make_disk_record(sample("race", 100, 200));
    assert_eq!(r.used, "0.00 bytes");
}

#[test]
fn listing_keeps_enumeration_order_and_identity_fields() {
    let records = build_disk_records(vec![sample("b", 10, 5), sample("a", 20, 5)]);
    assert_eq!(records.len(), 2);
    assert_eq!(records[0].device, "b");
    assert_eq!(records[0].mount_point, "/mnt/b");
    assert_eq!(records[0].filesystem_type, "ext4");
    assert_eq!(records[1].device, "a");
}

#[test]
fn empty_disk_snapshot_gives_the_empty_listing() {
    assert!(build_disk_records(Vec::new()).is_empty());
}

#[test]
fn listing_is_deterministic_over_equal_snapshots() {
    let build = || build_disk_records(vec![sample("sda", 4096, 1024), sample("sdb", 100, 200)]);
    assert_eq!(build(), build());
}
