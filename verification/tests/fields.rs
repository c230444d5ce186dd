use statusbar::text::{cpu_text, mem_text, pad_left_text, time_text, u64_text};

#[test]
fn decimal_digits() {
    assert_eq!(u64_text(0), "0");
    assert_eq!(u64_text(7), "7");
    assert_eq!(u64_text(10), "10");
    assert_eq!(u64_text(512), "512");
    assert_eq!(u64_text(18446744073709551615), "18446744073709551615");
}

#[test]
fn padding() {
    assert_eq!(pad_left_text(String::from("7"), 2), " 7");
    assert_eq!(pad_left_text(String::from("42"), 2), "42");
    assert_eq!(pad_left_text(String::from("100"), 2), "100");
    assert_eq!(pad_left_text(String::from(""), 3), "   ");
}

#[test]
fn cpu_field() {
    assert_eq!(cpu_text(7), " 7%");
    assert_eq!(cpu_text(0), " 0%");
    assert_eq!(cpu_text(42), "42%");
    assert_eq!(cpu_text(100), "100%");
}

#[test]
fn mem_field_kilobytes() {
    assert_eq!(mem_text(0), "  0KB");
    assert_eq!(mem_text(7), "  7KB");
    assert_eq!(mem_text(512), "512KB");
    assert_eq!(mem_text(1024), "1024KB");
}

#[test]
fn mem_field_megabytes() {
    assert_eq!(mem_text(1025), "  1MB");
    assert_eq!(mem_text(300000), "292MB");
    assert_eq!(mem_text(1024 * 1024 - 1), "1023MB");
}

#[test]
fn mem_field_gigabytes() {
    assert_eq!(mem_text(1024 * 1024), "1.0GB");
    assert_eq!(mem_text(1536 * 1024), "1.5GB");
    assert_eq!(mem_text(1500 * 1024), "1.5GB");
    assert_eq!(mem_text(10 * 1024 * 1024), "10.0GB");
}

#[test]
fn mem_field_gigabyte_rounding_ties_to_even() {
    // 1280 MB is exactly 1.25 GB: the even tenth stays.
    assert_eq!(mem_text(1280 * 1024), "1.2GB");
    // 1792 MB is exactly 1.75 GB: the odd tenth rounds up.
    assert_eq!(mem_text(1792 * 1024), "1.8GB");
}

#[test]
fn time_field() {
    assert_eq!(time_text(8, 10, 12, 0), "08/10 12:00");
    assert_eq!(time_text(12, 31, 23, 59), "12/31 23:59");
    assert_eq!(time_text(1, 1, 0, 0), "01/01 00:00");
}
