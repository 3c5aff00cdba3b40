use clipper::text::{decimal_text, same_text};

#[test]
fn decimal_of_zero_is_one_digit() {
    assert_eq!(decimal_text(0), "0");
}

#[test]
fn decimal_of_small_numbers() {
    assert_eq!(decimal_text(5), "5");
    assert_eq!(decimal_text(10), "10");
    assert_eq!(decimal_text(22), "22");
    assert_eq!(decimal_text(295), "295");
    assert_eq!(decimal_text(1007), "1007");
}

#[test]
fn decimal_of_the_largest_number() {
    assert_eq!(decimal_text(u64::MAX), "18446744073709551615");
}

#[test]
fn decimal_agrees_with_the_standard_library() {
    for n in (0..5000u64).chain([99_999, 100_000, 4_294_967_295, 4_294_967_296]) {
        assert_eq!(decimal_text(n), n.to_string());
    }
}

#[test]
fn same_text_compares_characters() {
    assert!(same_text("", ""));
    assert!(same_text("label", "label"));
    assert!(!same_text("label", "labeL"));
    assert!(!same_text("label", "label_position"));
    assert!(!same_text("label_position", "label"));
    assert!(!same_text("", "a"));
    assert!(same_text("é✓", "é✓"));
    assert!(!same_text("é", "e"));
}
