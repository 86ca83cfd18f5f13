use bardcast::util::fmt::{max_display_length, max_length, DisplayLength};
use bardcast::util::text;

fn strings(texts: &[&str]) -> Vec<String> {
    texts.iter().map(|t| t.to_string()).collect()
}

#[test]
fn texts_are_compared_by_contents() {
    assert!(text::same_text("vlc", "vlc"));
    assert!(!text::same_text("vlc", "VLC"));
    assert!(!text::same_text("vlc", "vl"));
    assert!(text::same_text("", ""));
}

#[test]
fn prefixes_and_parts_are_found() {
    assert!(text::has_prefix("bardcast-1_rec-0", "bardcast-1_rec"));
    assert!(!text::has_prefix("bardcast", "bardcast-1"));
    assert!(text::has_prefix("anything", ""));
    assert!(text::has_text("bardcast-1_rec-0.2", "rec-0"));
    assert!(text::has_text("abc", "abc"));
    assert!(!text::has_text("abc", "abd"));
    assert!(!text::has_text("", "a"));
    assert!(text::has_text("", ""));
}

#[test]
fn numbers_are_rendered_in_base_10() {
    assert_eq!(text::decimal_string(0), "0");
    assert_eq!(text::decimal_string(7), "7");
    assert_eq!(text::decimal_string(1234567890), "1234567890");
    assert_eq!(text::decimal_string(u64::MAX), "18446744073709551615");
}

#[test]
fn unsigned_numbers_are_parsed() {
    assert_eq!(text::parse_unsigned("0", 10), Some(0));
    assert_eq!(text::parse_unsigned("+10", 10), Some(10));
    assert_eq!(text::parse_unsigned("007", 10), Some(7));
    assert_eq!(text::parse_unsigned("11", 10), None);
    assert_eq!(text::parse_unsigned("", 10), None);
    assert_eq!(text::parse_unsigned("+", 10), None);
    assert_eq!(text::parse_unsigned("-1", 10), None);
    assert_eq!(text::parse_unsigned("1 ", 10), None);
    assert_eq!(text::parse_unsigned("18446744073709551615", u64::MAX), Some(u64::MAX));
    assert_eq!(text::parse_unsigned("18446744073709551616", u64::MAX), None);
}

#[test]
fn texts_are_converted_to_upper_case() {
    assert_eq!(text::to_uppercase_text("peek"), "PEEK");
    assert_eq!(text::to_uppercase_text("Monitor 2"), "MONITOR 2");
    assert_eq!(text::to_uppercase_text(""), "");
}

#[test]
fn texts_are_split_and_joined() {
    assert_eq!(text::split_text("a,b,,c", ','), strings(&["a", "b", "", "c"]));
    assert_eq!(text::split_text("", ','), strings(&[""]));
    assert_eq!(text::join_text(&strings(&["a", "b", "c"]), ", "), "a, b, c");
    assert_eq!(text::join_text(&Vec::new(), ", "), "");
}

#[test]
fn texts_are_padded() {
    assert_eq!(text::pad_right("ab", 5), "ab   ");
    assert_eq!(text::pad_right("abcdef", 5), "abcdef");
    assert_eq!(text::pad_right("\u{e9}", 3), "\u{e9}  ");
    assert_eq!(text::zero_pad(7, 4), "0007");
    assert_eq!(text::zero_pad(0, 4), "0000");
    assert_eq!(text::zero_pad(12345, 4), "12345");
    assert_eq!(text::repeat_char('=', 3), "===");
    assert_eq!(text::repeat_char('=', 0), "");
}

#[test]
fn display_length_counts_characters() {
    assert_eq!("abc".display_length(), 3);
    assert_eq!("\u{e9}".display_length(), 1);
    assert_eq!("na\u{ef}ve \u{2713}".to_string().display_length(), 7);
    assert_eq!("".display_length(), 0);
    assert_eq!(0u64.display_length(), 1);
    assert_eq!(42u64.display_length(), 2);
    assert_eq!(u64::MAX.display_length(), 20);
    assert_eq!(max_length(3, 4), 4);
    assert_eq!(max_length(4, 3), 4);
}

#[test]
fn max_display_length_is_that_of_the_longest() {
    assert_eq!(max_display_length(&strings(&["a", "abc", "ab"])), 3);
    assert_eq!(max_display_length(&Vec::<String>::new()), 0);
    assert_eq!(max_display_length(&strings(&["", "\u{e9}"])), 1);
    assert_eq!(max_display_length(&vec![7u64, 12345, 99]), 5);
}
