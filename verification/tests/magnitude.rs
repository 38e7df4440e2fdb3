use sysmon::magnitude::format_memory_size;
use sysmon::magnitude::u64_to_dec;

#[test]
fn decimal_rendering_small() {
    assert_eq!(u64_to_dec(0), "0");
    assert_eq!(u64_to_dec(7), "7");
    assert_eq!(u64_to_dec(10), "10");
    assert_eq!(u64_to_dec(12345), "12345");
    assert_eq!(u64_to_dec(1000000), "1000000");
}

#[test]
fn decimal_rendering_largest() {
    assert_eq!(u64_to_dec(u64::MAX), "18446744073709551615");
}

#[test]
fn bytes_below_1024_render_as_bytes() {
    assert_eq!(format_memory_size(0), "0.00 bytes");
    assert_eq!(format_memory_size(1), "1.00 bytes");
    assert_eq!(format_memory_size(512), "512.00 bytes");
    assert_eq!(format_memory_size(1023), "1023.00 bytes");
}

#[test]
fn unit_boundaries() {
    assert_eq!(format_memory_size(1024), "1.00 KB");
    assert_eq!(format_memory_size(1024 * 1024), "1.00 MB");
    assert_eq!(format_memory_size(1024 * 1024 * 1024), "1.00 GB");
    assert_eq!(format_memory_size(1024u64 * 1024 * 1024 * 1024), "1.00 TB");
}

#[test]
fn fractional_values() {
    assert_eq!(format_memory_size(1536), "1.50 KB");
    assert_eq!(format_memory_size(1_572_864), "1.50 MB");
    assert_eq!(format_memory_size(2560), "2.50 KB");
}

#[test]
fn values_round_to_the_nearest_hundredth() {
    // 1535 bytes is 1.4990... KB and rounds up to 1.50.
    assert_eq!(format_memory_size(1535), "1.50 KB");
    // 1525 bytes is 1.4892... KB and rounds to 1.49.
    assert_eq!(format_memory_size(1525), "1.49 KB");
    // 1033 bytes is 1.0087... KB and rounds up to 1.01.
    assert_eq!(format_memory_size(1033), "1.01 KB");
}

#[test]
fn exact_halves_round_to_the_even_hundredth() {
    // 1152 bytes is exactly 1.125 KB: the tie goes down to the even 1.12.
    assert_eq!(format_memory_size(1152), "1.12 KB");
    // 1408 bytes is exactly 1.375 KB: the tie goes up to the even 1.38.
    assert_eq!(format_memory_size(1408), "1.38 KB");
}

#[test]
fn just_below_a_boundary_rounds_within_the_smaller_unit() {
    // The unit is chosen on the raw count, so one byte under a boundary
    // stays in the smaller unit even though its value rounds to 1024.00.
    assert_eq!(format_memory_size(1024 * 1024 - 1), "1024.00 KB");
    assert_eq!(format_memory_size(1024 * 1024 * 1024 - 1), "1024.00 MB");
    assert_eq!(format_memory_size(1024 * 1024 - 6), "1023.99 KB");
}

#[test]
fn largest_count_renders_in_tb() {
    assert_eq!(format_memory_size(u64::MAX), "16777216.00 TB");
}
