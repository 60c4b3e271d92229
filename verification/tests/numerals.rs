//! The decimal scanner and the decimal formatter on concrete values.

use heatmap_backend::numeric::scan_decimal;
use heatmap_backend::numeric::to_decimal;

#[test]
fn test_to_decimal_digits() {
    assert_eq!(to_decimal(0), "0");
    assert_eq!(to_decimal(7), "7");
    assert_eq!(to_decimal(10), "10");
    assert_eq!(to_decimal(1234567890), "1234567890");
    assert_eq!(to_decimal(2147483647), "2147483647");
}

#[test]
fn test_scan_decimal_plain_integer() {
    assert_eq!(scan_decimal("5"), (true, true, 5));
    assert_eq!(scan_decimal("0"), (true, false, 0));
    assert_eq!(scan_decimal("007"), (true, true, 7));
}

#[test]
fn test_scan_decimal_truncates_fraction() {
    assert_eq!(scan_decimal("5.9"), (true, true, 5));
    assert_eq!(scan_decimal("0.5"), (true, true, 0));
    assert_eq!(scan_decimal("12."), (true, true, 12));
    assert_eq!(scan_decimal(".25"), (true, true, 0));
}

#[test]
fn test_scan_decimal_signs() {
    let minus = scan_decimal("-5.9");
    assert!(minus.0);
    assert!(!minus.1);
    assert_eq!(scan_decimal("+5.9"), (true, true, 5));
    assert!(!scan_decimal("-").0);
}

#[test]
fn test_scan_decimal_rejects_bad_text() {
    assert!(!scan_decimal("").0);
    assert!(!scan_decimal("invalid").0);
    assert!(!scan_decimal("1.2.3").0);
    assert!(!scan_decimal(".").0);
    assert!(!scan_decimal("5x").0);
    assert!(!scan_decimal(" 5").0);
}

#[test]
fn test_scan_decimal_saturates_display() {
    assert_eq!(scan_decimal("2147483648"), (true, true, 2147483647));
    assert_eq!(scan_decimal("99999999999999999999"), (true, true, 2147483647));
}
