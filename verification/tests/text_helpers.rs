use exposed_app_operator::text::{concat2, concat3, str_eq, u64_to_decimal};

#[test]
fn concat2_joins_in_order() {
    assert_eq!(concat2("web", "-deployment"), "web-deployment");
    assert_eq!(concat2("", "x"), "x");
    assert_eq!(concat2("x", ""), "x");
}

#[test]
fn concat3_joins_in_order() {
    assert_eq!(concat3("a", "b", "c"), "abc");
    assert_eq!(concat3("Annotation ", "k", " not found"), "Annotation k not found");
}

#[test]
fn str_eq_compares_contents() {
    assert!(str_eq("ExposedApp", "ExposedApp"));
    assert!(!str_eq("ExposedApp", "exposedapp"));
    assert!(!str_eq("a", "ab"));
    assert!(str_eq("", ""));
}

#[test]
fn decimal_of_small_numbers() {
    assert_eq!(u64_to_decimal(0), "0");
    assert_eq!(u64_to_decimal(7), "7");
    assert_eq!(u64_to_decimal(9), "9");
    assert_eq!(u64_to_decimal(10), "10");
    assert_eq!(u64_to_decimal(409), "409");
}

#[test]
fn decimal_of_large_numbers() {
    assert_eq!(u64_to_decimal(65535), "65535");
    assert_eq!(u64_to_decimal(4294967295), "4294967295");
    assert_eq!(u64_to_decimal(u64::MAX), "18446744073709551615");
    assert_eq!(u64_to_decimal(1000000), "1000000");
}
