use clickward::lifecycle::starts_with;
use clickward::text::{decimal_string, push_decimal};

#[test]
fn decimal_of_small_and_large_numbers() {
    assert_eq!(decimal_string(0), "0");
    assert_eq!(decimal_string(7), "7");
    assert_eq!(decimal_string(9), "9");
    assert_eq!(decimal_string(10), "10");
    assert_eq!(decimal_string(109), "109");
    assert_eq!(decimal_string(1234567890), "1234567890");
    assert_eq!(decimal_string(u64::MAX), "18446744073709551615");
}

#[test]
fn decimal_agrees_with_std() {
    for n in (0..5000u64).chain([65535, 65536, 99999, 100000, u64::MAX - 1]) {
        assert_eq!(decimal_string(n), n.to_string());
    }
}

#[test]
fn push_decimal_appends() {
    let mut s = String::from("keeper-");
    push_decimal(&mut s, 42);
    assert_eq!(s, "keeper-42");
    push_decimal(&mut s, 0);
    assert_eq!(s, "keeper-420");
}

#[test]
fn starts_with_compares_characters() {
    assert!(starts_with("keeper-1", "keeper"));
    assert!(starts_with("keeper", "keeper"));
    assert!(starts_with("keeper", ""));
    assert!(starts_with("", ""));
    assert!(!starts_with("keepe", "keeper"));
    assert!(!starts_with("", "keeper"));
    assert!(!starts_with("clickhouse-1", "keeper"));
    assert!(!starts_with("xkeeper", "keeper"));
    assert!(starts_with("héllo wörld", "héllo"));
    assert!(!starts_with("héllo", "hello"));
}
