use admiral::text::{push_decimal, same_text, text_chars};

#[test]
fn decimal_numerals() {
    let mut s = String::from("n=");
    push_decimal(&mut s, 0);
    assert_eq!(s, "n=0");
    let mut s = String::new();
    push_decimal(&mut s, 1234567890123);
    assert_eq!(s, "1234567890123");
    let mut s = String::new();
    push_decimal(&mut s, u64::MAX);
    assert_eq!(s, "18446744073709551615");
}

#[test]
fn characters_and_equality() {
    assert_eq!(text_chars("aé1"), vec!['a', 'é', '1']);
    assert!(same_text("roll", "roll"));
    assert!(!same_text("roll", "Roll"));
}
