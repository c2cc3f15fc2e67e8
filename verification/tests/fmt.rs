use headunit::fmt::decimal_string;
use headunit::fmt::milli_string;
use headunit::fmt::watts;

#[test]
fn decimal_renders_exact_digits() {
    assert_eq!(decimal_string(0), "0");
    assert_eq!(decimal_string(7), "7");
    assert_eq!(decimal_string(13), "13");
    assert_eq!(decimal_string(100), "100");
    assert_eq!(decimal_string(4294967295), "4294967295");
}

#[test]
fn milli_drops_trailing_zeros_and_point() {
    assert_eq!(milli_string(13200), "13.2");
    assert_eq!(milli_string(13000), "13");
    assert_eq!(milli_string(13250), "13.25");
    assert_eq!(milli_string(13205), "13.205");
    assert_eq!(milli_string(13050), "13.05");
    assert_eq!(milli_string(5), "0.005");
    assert_eq!(milli_string(0), "0");
    assert_eq!(milli_string(999), "0.999");
}

#[test]
fn watts_truncate_toward_zero() {
    // 13.2 V at 2.6 A is 34.32 W, shown as 34.
    assert_eq!(watts(13200, 2600), 34);
    assert_eq!(watts(0, 2600), 0);
    assert_eq!(watts(999, 999), 0);
    assert_eq!(watts(1000, 1000), 1);
}
