use todoist_rest_api::text::{
    chars_of, decimal_string, digit_of, ends_with_char, is_digit_char, join, starts_with_char,
};

#[test]
fn characters_of_a_text() {
    assert_eq!(chars_of(""), Vec::<char>::new());
    assert_eq!(chars_of("a-é"), vec!['a', '-', 'é']);
}

#[test]
fn first_and_last_character() {
    assert!(starts_with_char("/a", '/'));
    assert!(!starts_with_char("a/", '/'));
    assert!(!starts_with_char("", '/'));
    assert!(ends_with_char("a=", '='));
    assert!(!ends_with_char("=a", '='));
    assert!(!ends_with_char("", '='));
    assert!(ends_with_char("é", 'é'));
}

#[test]
fn digits() {
    assert!(is_digit_char('0'));
    assert!(is_digit_char('9'));
    assert!(!is_digit_char('/'));
    assert!(!is_digit_char(':'));
    assert!(!is_digit_char('٣'));
    assert_eq!(digit_of('0'), 0);
    assert_eq!(digit_of('7'), 7);
    assert_eq!(digit_of('9'), 9);
}

#[test]
fn numbers_in_decimal() {
    assert_eq!(decimal_string(0), "0");
    assert_eq!(decimal_string(7), "7");
    assert_eq!(decimal_string(10), "10");
    assert_eq!(decimal_string(404), "404");
    assert_eq!(decimal_string(1234567890), "1234567890");
    assert_eq!(decimal_string(u64::MAX), "18446744073709551615");
}

#[test]
fn joined_items() {
    assert_eq!(join(&vec![], ", "), "");
    assert_eq!(join(&vec!["a"], ", "), "a");
    assert_eq!(join(&vec!["a", "b"], ", "), "a, b");
    assert_eq!(join(&vec!["a", "", "c"], ","), "a,,c");
}
