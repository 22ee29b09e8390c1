use wakepcbox::number::{decimal_chars, decimal_two_chars, parse_i32, parse_u32};
use wakepcbox::shape::{check_char, check_edited, check_shape};
use wakepcbox::text::{chars_of, copy_chars, editable_chars, same_chars, string_of, trim_chars};
use wakepcbox::ui::InputTypeChar;

fn chars(s: &str) -> Vec<char> {
    s.chars().collect()
}

#[test]
fn strings_and_characters_convert_both_ways() {
    assert_eq!(chars_of("home"), vec!['h', 'o', 'm', 'e']);
    assert_eq!(chars_of(""), Vec::<char>::new());
    assert_eq!(string_of(&vec!['h', 'o', 'm', 'e']), "home");
    assert_eq!(string_of(&chars_of("grüße")), "grüße");
    assert_eq!(copy_chars(&chars("abc")), chars("abc"));
}

#[test]
fn same_chars_compares_contents() {
    assert!(same_chars(&chars("abc"), &chars("abc")));
    assert!(!same_chars(&chars("abc"), &chars("abd")));
    assert!(!same_chars(&chars("abc"), &chars("ab")));
    assert!(same_chars(&chars(""), &chars("")));
}

#[test]
fn trim_removes_blanks_at_both_ends_only() {
    assert_eq!(trim_chars(&chars("  a b  ")), chars("a b"));
    assert_eq!(trim_chars(&chars("home ")), chars("home"));
    assert_eq!(trim_chars(&chars(" home")), chars("home"));
    assert_eq!(trim_chars(&chars("home")), chars("home"));
    assert_eq!(trim_chars(&chars("   ")), chars(""));
    assert_eq!(trim_chars(&chars("")), chars(""));
    assert_eq!(trim_chars(&chars(" x")), chars("x"));
}

#[test]
fn editable_puts_a_blank_where_nothing_is() {
    assert_eq!(editable_chars(chars("")), chars(" "));
    assert_eq!(editable_chars(chars("a")), chars("a"));
}

#[test]
fn numbers_are_read_as_rust_reads_them() {
    for text in ["0", "7", "30", "+30", "007", "4294967295", "4294967296", "", "+", "-", "-0", "-1", "1 0", " 1", "1a", "99999999999999999999999", "2147483647", "2147483648", "-2147483648", "-2147483649", "+-1", "--1", "١"] {
        assert_eq!(parse_u32(&chars(text)), text.parse::<u32>().ok(), "u32 {:?}", text);
        assert_eq!(parse_i32(&chars(text)), text.parse::<i32>().ok(), "i32 {:?}", text);
    }
}

#[test]
fn numbers_are_written_in_decimal() {
    assert_eq!(decimal_chars(0), chars("0"));
    assert_eq!(decimal_chars(7), chars("7"));
    assert_eq!(decimal_chars(30), chars("30"));
    assert_eq!(decimal_chars(4294967295), chars("4294967295"));
    assert_eq!(decimal_two_chars(0), chars("00"));
    assert_eq!(decimal_two_chars(9), chars("09"));
    assert_eq!(decimal_two_chars(14), chars("14"));
    assert_eq!(decimal_two_chars(123), chars("123"));
}

#[test]
fn written_numbers_read_back() {
    for n in [0u32, 1, 9, 10, 99, 100, 65535, 4294967295] {
        assert_eq!(parse_u32(&decimal_chars(n)), Some(n));
    }
}

#[test]
fn hardware_address_shape() {
    let kind = InputTypeChar::HWAddressType;
    assert!(check_shape(kind, &chars("00:11:22:AA:bb:FF")));
    assert!(!check_shape(kind, &chars("00:11:22:AA:bb:FF ")));
    assert!(check_edited(kind, &chars("00:11:22:AA:bb:FF  ")));
    assert!(!check_shape(kind, &chars("00:11:22:AA:bb:F")));
    assert!(!check_shape(kind, &chars("00-11-22-AA-bb-FF")));
    assert!(!check_shape(kind, &chars("00:11:22:AA:bb:GG")));
    assert!(!check_shape(kind, &chars("0:11:22:AA:bb:FF0")));
    assert!(!check_shape(kind, &chars("")));
    assert!(check_char(kind, 2, ':'));
    assert!(!check_char(kind, 2, '0'));
    assert!(!check_char(kind, 3, ':'));
    assert!(check_char(kind, 17, ' '));
    assert!(!check_char(kind, 17, '0'));
}

#[test]
fn number_shape() {
    let kind = InputTypeChar::NumberType;
    assert!(check_shape(kind, &chars("30")));
    assert!(!check_shape(kind, &chars("3 0")));
    assert!(check_edited(kind, &chars("3 0")));
    assert!(!check_shape(kind, &chars("3a")));
    assert!(!check_edited(kind, &chars("3a")));
    assert!(!check_shape(kind, &chars("")));
    assert!(!check_shape(kind, &chars("-3")));
}

#[test]
fn offset_shape() {
    let kind = InputTypeChar::TimezoneType;
    assert!(check_shape(kind, &chars("+09")));
    assert!(check_shape(kind, &chars("-12")));
    assert!(!check_shape(kind, &chars("+9")));
    assert!(!check_shape(kind, &chars("009")));
    assert!(!check_shape(kind, &chars("+123")));
    assert!(check_edited(kind, &chars("+09 ")));
    assert!(!check_edited(kind, &chars("+09x")));
}

#[test]
fn text_and_action_shape() {
    assert!(check_shape(InputTypeChar::StringType, &chars("home net")));
    assert!(check_shape(InputTypeChar::StringType, &chars(" ")));
    assert!(!check_shape(InputTypeChar::StringType, &chars("")));
    assert!(!check_shape(InputTypeChar::StringType, &chars("a\tb")));
    assert!(!check_shape(InputTypeChar::StringType, &chars("é")));
    assert!(check_shape(InputTypeChar::ActionType, &chars("BACK TO DEFAULT")));
    assert!(!check_shape(InputTypeChar::ActionType, &chars("")));
    assert!(check_shape(InputTypeChar::SelectType, &chars("anything")));
}
