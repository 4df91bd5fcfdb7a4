use bili::text::{clock_format, parse_u64, zero_padded};

#[test]
fn clock_format_truncates_fractions() {
    assert_eq!(clock_format(1.1f64 as u64), "00:00:01");
    assert_eq!(clock_format(67.1f64 as u64), "00:01:07");
    assert_eq!(clock_format(3671.1f64 as u64), "01:01:11");
}

#[test]
fn clock_format_edges() {
    assert_eq!(clock_format(0), "00:00:00");
    assert_eq!(clock_format(59), "00:00:59");
    assert_eq!(clock_format(3600 * 123 + 61), "123:01:01");
}

#[test]
fn zero_padded_widths() {
    assert_eq!(zero_padded(7, 2), "07");
    assert_eq!(zero_padded(1201, 5), "01201");
    assert_eq!(zero_padded(123, 2), "123");
    assert_eq!(zero_padded(0, 0), "0");
    assert_eq!(zero_padded(u64::MAX, 3), "18446744073709551615");
}

#[test]
fn parse_u64_like_std() {
    for s in ["0", "42", "+7", "18446744073709551615", "18446744073709551616", "", "+", "-1", "1a", " 1", "007"] {
        assert_eq!(parse_u64(s), s.parse::<u64>().ok(), "{s:?}");
    }
}
