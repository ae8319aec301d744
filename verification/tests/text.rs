use debug_session::text::{
    address_string, char_count, chars_of, hex_upper_string, last_word_of, push_decimal,
    push_hex_lower, push_hex_padded, push_signed_decimal, same_text, split_first, starts_with,
    string_of,
};

#[test]
fn numbers_are_written_in_decimal() {
    let mut s = String::from("n=");
    push_decimal(&mut s, 0);
    push_decimal(&mut s, 1234567890);
    assert_eq!(s, "n=01234567890");
    let mut max = String::new();
    push_decimal(&mut max, u64::MAX);
    assert_eq!(max, "18446744073709551615");
}

#[test]
fn negative_numbers_get_a_minus() {
    for n in [0i64, 7, -7, i64::MAX, i64::MIN] {
        let mut s = String::new();
        push_signed_decimal(&mut s, n);
        assert_eq!(s, format!("{}", n));
    }
}

#[test]
fn numbers_are_written_in_hexadecimal() {
    assert_eq!(hex_upper_string(0xdeadbeef), "DEADBEEF");
    assert_eq!(hex_upper_string(0), "0");
    let mut s = String::new();
    push_hex_lower(&mut s, 0xabc);
    assert_eq!(s, "abc");
    assert_eq!(address_string(0x7fff_0000), "0x7FFF0000");
    assert_eq!(address_string(u64::MAX), "0xFFFFFFFFFFFFFFFF");
}

#[test]
fn padding_only_fills_up() {
    let mut s = String::new();
    push_hex_padded(&mut s, 0x1f, 8);
    assert_eq!(s, "0000001F");
    let mut long = String::new();
    push_hex_padded(&mut long, 0x1234_5678_9abc, 8);
    assert_eq!(long, "123456789ABC");
}

#[test]
fn characters_are_counted_and_cut() {
    assert_eq!(char_count("h\u{e9}llo"), 5);
    let chars = chars_of("h\u{e9}llo");
    assert_eq!(string_of(&chars, 1, 3), "\u{e9}l");
}

#[test]
fn prefixes_are_found() {
    assert!(starts_with("/cmd help", "/cmd "));
    assert!(!starts_with("/cmd", "/cmd "));
    assert!(starts_with("x", ""));
    assert!(same_text("abc", "abc"));
    assert!(!same_text("abc", "abd"));
}

#[test]
fn text_is_split_at_the_first_separator() {
    assert_eq!(split_first("cpp_throw_x", '_'), ("cpp".to_string(), Some("throw_x".to_string())));
    assert_eq!(split_first("cpp", '_'), ("cpp".to_string(), None));
    assert_eq!(split_first("_", '_'), ("".to_string(), Some("".to_string())));
}

#[test]
fn last_word_is_behind_the_last_white_space() {
    assert_eq!(last_word_of("set show tar"), "tar");
    assert_eq!(last_word_of("set show \t "), "show");
    assert_eq!(last_word_of("a\u{3000}b"), "b");
    assert_eq!(last_word_of("   "), "");
    assert_eq!(last_word_of(""), "");
}
