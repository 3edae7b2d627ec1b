use pycavy::text::{decimal_string, str_eq};

#[test]
fn decimal_of_single_digits() {
    for n in 0..10usize {
        assert_eq!(decimal_string(n), n.to_string());
    }
    assert_eq!(decimal_string(0), "0");
    assert_eq!(decimal_string(7), "7");
}

#[test]
fn decimal_of_larger_numbers() {
    assert_eq!(decimal_string(10), "10");
    assert_eq!(decimal_string(99), "99");
    assert_eq!(decimal_string(100), "100");
    assert_eq!(decimal_string(1005), "1005");
    assert_eq!(decimal_string(123456789), "123456789");
    assert_eq!(decimal_string(4294967295), "4294967295");
}

#[test]
fn decimal_of_the_largest_index() {
    assert_eq!(decimal_string(usize::MAX), usize::MAX.to_string());
}

#[test]
fn decimal_agrees_with_std_on_a_sweep() {
    let mut n: usize = 1;
    for _ in 0..60 {
        assert_eq!(decimal_string(n), n.to_string());
        assert_eq!(decimal_string(n - 1), (n - 1).to_string());
        n = n.wrapping_mul(3).wrapping_add(1);
    }
}

#[test]
fn str_eq_compares_letter_for_letter() {
    assert!(str_eq("parse", "parse"));
    assert!(str_eq("", ""));
    assert!(!str_eq("parse", "Parse"));
    assert!(!str_eq("parse", "parse "));
    assert!(!str_eq("", "x"));
    assert!(str_eq("\u{e9}t\u{e9}", "\u{e9}t\u{e9}"));
}
