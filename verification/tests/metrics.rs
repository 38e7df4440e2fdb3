use sysmon::metrics::MemSample;
use sysmon::metrics::NetSample;
use sysmon::metrics::build_metrics;

fn mem(used: u64, total: u64, free: u64) -> MemSample {
    MemSample {
        cpus: vec!["1.00".to_string(), "2.50".to_string()],
        used_memory: used,
        total_memory: total,
        free_memory: free,
        used_swap: 0,
        total_swap: 2048,
        free_swap: 2048,
    }
}

fn net(received: u64, total_received: u64, transmitted: u64, total_transmitted: u64) -> NetSample {
    NetSample { received, total_received, transmitted, total_transmitted }
}

/// Parses a magnitude string back to bytes.
fn parse_magnitude(s: &str) -> f64 {
    let (value, unit) = s.split_once(' ').unwrap();
    let scale: f64 = match unit {
        "bytes" => 1.0,
        "KB" => 1024.0,
        "MB" => 1024.0 * 1024.0,
        "GB" => 1024.0 * 1024.0 * 1024.0,
        "TB" => 1024.0 * 1024.0 * 1024.0 * 1024.0,
        _ => panic!("unexpected unit {unit}"),
    };
    value.parse::<f64>().unwrap() * scale
}

#[test]
fn memory_and_swap_fields_are_rendered_magnitudes() {
    let m = build_metrics(mem(1536, 1024 * 1024, 512), Vec::new());
    assert_eq!(m.used_memory, "1.50 KB");
    assert_eq!(m.total_memory, "1.00 MB");
    assert_eq!(m.free_memory, "512.00 bytes");
    assert_eq!(m.used_swap, "0.00 bytes");
    assert_eq!(m.total_swap, "2.00 KB");
    assert_eq!(m.free_swap, "2.00 KB");
}

#[test]
fn total_swap_is_its_own_counter_not_a_copy_of_used() {
    let m = build_metrics(mem(10, 20, 10), Vec::new());
    assert_ne!(m.total_swap, m.used_swap);
}

#[test]
fn per_cpu_usage_is_carried_through_in_order() {
    let m = build_metrics(mem(1, 2, 1), Vec::new());
    assert_eq!(m.per_cpu_usage, vec!["1.00".to_string(), "2.50".to_string()]);
}

#[test]
fn network_counters_sum_over_interfaces() {
    let nets = vec![net(1, 10, 100, 1000), net(2, 20, 200, 2000)];
    let m = build_metrics(mem(1, 2, 1), nets);
    assert_eq!(m.bytes_received, 3);
    assert_eq!(m.total_bytes_received, 30);
    assert_eq!(m.bytes_transmitted, 300);
    assert_eq!(m.total_bytes_transmitted, 3000);
}

#[test]
fn network_sums_saturate_instead_of_overflowing() {
    let nets = vec![net(u64::MAX, u64::MAX - 1, 0, 1), net(5, 5, 5, 5)];
    let m = build_metrics(mem(1, 2, 1), nets);
    assert_eq!(m.bytes_received, u64::MAX);
    assert_eq!(m.total_bytes_received, u64::MAX);
    assert_eq!(m.bytes_transmitted, 5);
    assert_eq!(m.total_bytes_transmitted, 6);
}

#[test]
fn no_interfaces_sum_to_zero() {
    let m = build_metrics(mem(1, 2, 1), Vec::new());
    assert_eq!(m.bytes_received, 0);
    assert_eq!(m.total_bytes_transmitted, 0);
}

#[test]
fn parsed_back_memory_approximates_the_raw_total() {
    // 1034 + 1034 = 2068: both magnitudes round to "1.01 KB". Parsed back,
    // the sum may pass the raw total only by the rounding slack of half a
    // hundredth of each magnitude's unit (here 5.12 bytes per term).
    let m = build_metrics(mem(1034, 2068, 1034), Vec::new());
    assert_eq!(m.used_memory, "1.01 KB");
    assert_eq!(m.free_memory, "1.01 KB");
    let back = parse_magnitude(&m.used_memory) + parse_magnitude(&m.free_memory);
    let slack = 2.0 * 1024.0 / 200.0;
    assert!(back <= 2068.0 + slack);
    assert!(back >= 2068.0 - slack);
}
