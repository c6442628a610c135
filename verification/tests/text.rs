use mood_api::utils::text::{decimal, digit_str, join2, str_eq};

#[test]
fn decimal_renders_numbers() {
    assert_eq!(decimal(0), "0");
    assert_eq!(decimal(7), "7");
    assert_eq!(decimal(10), "10");
    assert_eq!(decimal(40002), "40002");
    assert_eq!(decimal(u64::MAX), "18446744073709551615");
}

#[test]
fn digit_str_gives_single_digits() {
    assert_eq!(digit_str(0), "0");
    assert_eq!(digit_str(9), "9");
}

#[test]
fn str_eq_compares_text() {
    assert!(str_eq("joy", "joy"));
    assert!(str_eq("", ""));
    assert!(!str_eq("joy", "joy "));
    assert!(!str_eq("joy", "Joy"));
    assert!(str_eq("grüße", "grüße"));
    assert!(!str_eq("grüße", "grusse"));
}

#[test]
fn join2_concatenates() {
    assert_eq!(join2("ab", "cd"), "abcd");
    assert_eq!(join2("", "x"), "x");
}
