use rsnvim::text::{
    chars_of, decimal_string, join_strings, read_count, skip_chars, starts_with, str_eq,
    strip_start, Count,
};

#[test]
fn the_characters_of_a_string_come_in_order() {
    assert_eq!(chars_of("a\u{e9}z"), vec!['a', '\u{e9}', 'z']);
    assert_eq!(chars_of(""), Vec::<char>::new());
}

#[test]
fn strings_are_equal_by_their_characters() {
    assert!(str_eq("name", "name"));
    assert!(str_eq("", ""));
    assert!(!str_eq("name", "names"));
    assert!(!str_eq("name", "nam"));
    assert!(!str_eq("name", "nome"));
    assert!(!str_eq("Name", "name"));
}

#[test]
fn a_prefix_is_a_beginning() {
    assert!(starts_with("nvim_buf_x", "nvim_buf_"));
    assert!(starts_with("nvim_buf_", "nvim_buf_"));
    assert!(starts_with("anything", ""));
    assert!(!starts_with("nvim_bu", "nvim_buf_"));
    assert!(!starts_with("xnvim_buf_", "nvim_buf_"));
    assert!(!starts_with("", "a"));
}

#[test]
fn a_prefix_is_stripped_where_it_is_one() {
    assert_eq!(strip_start("nvim_buf_set_mark", "nvim_buf_"), Some("set_mark".to_string()));
    assert_eq!(strip_start("nvim_buf_", "nvim_buf_"), Some(String::new()));
    assert_eq!(strip_start("nvim_win_x", "nvim_buf_"), None);
    assert_eq!(strip_start("\u{e9}t\u{e9}", "\u{e9}"), Some("t\u{e9}".to_string()));
}

#[test]
fn characters_are_skipped_not_bytes() {
    assert_eq!(skip_chars("\u{e9}\u{e8}abc", 2), "abc");
    assert_eq!(skip_chars("abc", 0), "abc");
    assert_eq!(skip_chars("abc", 3), "");
}

#[test]
fn numbers_are_written_in_decimal() {
    assert_eq!(decimal_string(0), "0");
    assert_eq!(decimal_string(7), "7");
    assert_eq!(decimal_string(10), "10");
    assert_eq!(decimal_string(109), "109");
    assert_eq!(decimal_string(1234567890), "1234567890");
    assert_eq!(decimal_string(usize::MAX), usize::MAX.to_string());
}

#[test]
fn numerals_are_read_in_decimal() {
    assert_eq!(read_count("0"), Count::Exact(0));
    assert_eq!(read_count("2"), Count::Exact(2));
    assert_eq!(read_count("007"), Count::Exact(7));
    assert_eq!(read_count("1234567890"), Count::Exact(1234567890));
    assert_eq!(read_count(&usize::MAX.to_string()), Count::Exact(usize::MAX));
}

#[test]
fn a_numeral_above_the_largest_usize_is_too_large() {
    let above = format!("{}0", usize::MAX);
    assert_eq!(read_count(&above), Count::TooLarge);
    assert_eq!(read_count("340282366920938463463374607431768211456"), Count::TooLarge);
    let next = (usize::MAX as u128 + 1).to_string();
    assert_eq!(read_count(&next), Count::TooLarge);
}

#[test]
fn what_is_no_numeral_is_malformed() {
    assert_eq!(read_count(""), Count::Malformed);
    assert_eq!(read_count("+5"), Count::Malformed);
    assert_eq!(read_count("-5"), Count::Malformed);
    assert_eq!(read_count("5 "), Count::Malformed);
    assert_eq!(read_count("1x"), Count::Malformed);
    assert_eq!(read_count("99999999999999999999999999999999999999999x"), Count::Malformed);
}

#[test]
fn parts_are_joined_with_the_separator_between_them() {
    let parts = vec!["a".to_string(), "b".to_string(), "c".to_string()];
    assert_eq!(join_strings(&parts, ", "), "a, b, c");
    assert_eq!(join_strings(&vec!["only".to_string()], ", "), "only");
    assert_eq!(join_strings(&Vec::new(), ", "), "");
    assert_eq!(join_strings(&vec![String::new(), String::new()], "-"), "-");
}
