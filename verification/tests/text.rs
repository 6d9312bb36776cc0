use movie_bot::decimal::{
    decimal_string, parse_bounded, parse_i64, parse_u32, parse_u64, push_decimal,
    push_signed_decimal,
};
use movie_bot::text::{
    char_is_whitespace, chars_of, has_prefix, has_substring, index_of, index_of_from, matches_at, same_chars, slice_chars, str_eq, trimmed, without_repeated_prefix,
};

fn c(s: &str) -> Vec<char> {
    s.chars().collect()
}

fn s(v: Vec<char>) -> String {
    v.into_iter().collect()
}

#[test]
fn characters_of_a_string() {
    assert_eq!(chars_of("héllo"), vec!['h', 'é', 'l', 'l', 'o']);
    assert_eq!(chars_of(""), Vec::<char>::new());
}

#[test]
fn search_finds_the_first_occurrence() {
    assert_eq!(index_of(&c("abcabc"), &c("bc")), Some(1));
    assert_eq!(index_of_from(&c("abcabc"), &c("bc"), 2), Some(4));
    assert_eq!(index_of_from(&c("abcabc"), &c("bc"), 5), None);
    assert_eq!(index_of(&c("abc"), &c("abcd")), None);
    assert_eq!(index_of(&c("abc"), &c("")), Some(0));
    assert_eq!(index_of_from(&c("abc"), &c(""), 3), Some(3));
    assert_eq!(index_of_from(&c("abc"), &c(""), 4), None);
    assert_eq!(index_of(&c(""), &c("")), Some(0));
    assert_eq!(index_of(&c("ééx"), &c("x")), Some(2));
}

#[test]
fn search_agrees_with_the_standard_library() {
    let hays = ["", "a", "file:\"x\"", "aaab", "abababc", "xyz.m3u8.mp4"];
    let needles = ["", "a", "ab", "abc", "\"", ".m3u8", "b", "zz"];
    for hay in hays {
        for needle in needles {
            let expected = hay.find(needle).map(|byte| hay[..byte].chars().count());
            assert_eq!(index_of(&c(hay), &c(needle)), expected, "{:?} in {:?}", needle, hay);
            assert_eq!(has_substring(&c(hay), &c(needle)), hay.contains(needle));
            assert_eq!(has_prefix(&c(hay), &c(needle)), hay.starts_with(needle));
        }
    }
}

#[test]
fn occurrence_at_an_index() {
    assert!(matches_at(&c("hello"), &c("ll"), 2));
    assert!(!matches_at(&c("hello"), &c("ll"), 3));
    assert!(!matches_at(&c("hello"), &c("lo"), 4));
    assert!(matches_at(&c("hello"), &c(""), 5));
    assert!(!matches_at(&c("hello"), &c(""), 6));
}

#[test]
fn equality_of_texts() {
    assert!(same_chars(&c("abc"), &c("abc")));
    assert!(!same_chars(&c("abc"), &c("abd")));
    assert!(!same_chars(&c("abc"), &c("ab")));
    assert!(str_eq("", ""));
    assert!(!str_eq("a", "A"));
}

#[test]
fn slices_are_copied() {
    assert_eq!(s(slice_chars(&c("hello"), 1, 3)), "el");
    assert_eq!(s(slice_chars(&c("hello"), 5, 5)), "");
    assert_eq!(s(slice_chars(&c("hello"), 0, 5)), "hello");
}

#[test]
fn white_space_is_what_the_standard_library_calls_so() {
    let mut n: u32 = 0;
    while n <= 0x10ffff {
        if let Some(ch) = char::from_u32(n) {
            assert_eq!(char_is_whitespace(ch), ch.is_whitespace(), "U+{:04X}", n);
        }
        n += 1;
    }
}

#[test]
fn trimming_agrees_with_the_standard_library() {
    for text in ["", " ", "  a  ", "a", "\t\na b\r\n", "\u{a0}x\u{3000}", "x \u{200b}", "   "] {
        assert_eq!(s(trimmed(&c(text))), text.trim(), "{:?}", text);
    }
}

#[test]
fn repeated_prefix_is_removed_as_the_standard_library_does() {
    for (text, prefix) in [
        ("ababc", "ab"),
        ("abc", "ab"),
        ("abc", "x"),
        ("aaaa", "a"),
        ("", "a"),
        ("m!play m!play x", "m!play "),
        ("abab", "abab"),
        ("aba", "ab"),
    ] {
        assert_eq!(
            s(without_repeated_prefix(&c(text), &c(prefix))),
            text.trim_start_matches(prefix),
            "{:?} {:?}",
            text,
            prefix
        );
    }
    assert_eq!(s(without_repeated_prefix(&c("abc"), &c(""))), "abc");
}

#[test]
fn numbers_are_written_in_decimal() {
    assert_eq!(decimal_string(0), "0");
    assert_eq!(decimal_string(7), "7");
    assert_eq!(decimal_string(10), "10");
    assert_eq!(decimal_string(27205), "27205");
    assert_eq!(decimal_string(u64::MAX), "18446744073709551615");
    let mut out = c("n=");
    push_decimal(&mut out, 42);
    assert_eq!(s(out), "n=42");
    for n in [i64::MIN, -1, 0, 1, i64::MAX, -27205] {
        let mut out = Vec::new();
        push_signed_decimal(&mut out, n);
        assert_eq!(s(out), n.to_string());
    }
}

#[test]
fn numbers_are_read_as_the_standard_library_reads_them() {
    let texts = [
        "", "0", "00", "7", "+7", "-7", "+", "-", "+-1", "--1", "1 ", " 1", "1_000", "12a",
        "4294967295", "4294967296", "18446744073709551615", "18446744073709551616",
        "9223372036854775807", "9223372036854775808", "-9223372036854775808",
        "-9223372036854775809", "+0", "-0", "000000000000000000000000000001", "١٢",
    ];
    for text in texts {
        assert_eq!(parse_u32(&c(text)), text.parse::<u32>().ok(), "u32 {:?}", text);
        assert_eq!(parse_u64(&c(text)), text.parse::<u64>().ok(), "u64 {:?}", text);
        assert_eq!(parse_i64(&c(text)), text.parse::<i64>().ok(), "i64 {:?}", text);
    }
}

#[test]
fn a_bound_rejects_larger_numbers() {
    assert_eq!(parse_bounded(&c("100"), 100), Some(100));
    assert_eq!(parse_bounded(&c("101"), 100), None);
    assert_eq!(parse_bounded(&c("0"), 0), Some(0));
    assert_eq!(parse_bounded(&c("1"), 0), None);
    assert_eq!(parse_bounded(&c("9"), 5), None);
}
