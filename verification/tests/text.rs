use hsharp::text::{
    byte_prefix, chars_of, concat3, contains_text, decimal, join, pad, parse_index, same_text,
    starts_with, trim,
};

fn strings(parts: &[&str]) -> Vec<String> {
    parts.iter().map(|s| s.to_string()).collect()
}

#[test]
fn parts_are_joined() {
    assert_eq!(join(&strings(&[]), ", "), "");
    assert_eq!(join(&strings(&["a"]), ", "), "a");
    assert_eq!(join(&strings(&["a", "b", "c"]), "::"), "a::b::c");
    assert_eq!(concat3("a", "", "ż"), "aż");
}

#[test]
fn text_is_searched() {
    assert!(contains_text("xx__impl_method__f", "__impl_method__"));
    assert!(!contains_text("__impl_method_", "__impl_method__"));
    assert!(contains_text("", ""));
    assert!(contains_text("aab", "ab"));
    assert!(starts_with("__bind:x", "__bind:"));
    assert!(!starts_with("_bind:x", "__bind:"));
    assert!(starts_with("x", ""));
    assert!(same_text("ż", "ż"));
    assert!(!same_text("a", "ab"));
    assert_eq!(chars_of("aż"), vec!['a', 'ż']);
}

#[test]
fn numbers_are_written_in_decimal() {
    assert_eq!(decimal(0), "0");
    assert_eq!(decimal(9), "9");
    assert_eq!(decimal(10), "10");
    assert_eq!(decimal(u64::MAX), "18446744073709551615");
}

#[test]
fn indices_are_read() {
    assert_eq!(parse_index("0"), Some(0));
    assert_eq!(parse_index("007"), Some(7));
    assert_eq!(parse_index("+3"), Some(3));
    assert_eq!(parse_index("18446744073709551615"), Some(usize::MAX));
    assert_eq!(parse_index("18446744073709551616"), None);
    assert_eq!(parse_index(""), None);
    assert_eq!(parse_index("+"), None);
    assert_eq!(parse_index("-1"), None);
    assert_eq!(parse_index("1a"), None);
    assert_eq!(parse_index("++1"), None);
}

#[test]
fn reading_undoes_writing() {
    for n in [0usize, 1, 9, 10, 99, 100, 65535, usize::MAX] {
        assert_eq!(parse_index(&decimal(n as u64)), Some(n));
    }
}

#[test]
fn indices_are_read_as_std_reads_them() {
    for s in ["", "0", "+", "+0", "1 ", " 1", "٣", "99999999999999999999", "12", "-0"] {
        assert_eq!(parse_index(s), s.parse::<usize>().ok());
    }
}

#[test]
fn white_space_is_trimmed() {
    assert_eq!(trim("  ab c \n"), "ab c");
    assert_eq!(trim(" \t\u{a0}\u{3000}"), "");
    assert_eq!(trim(""), "");
    for s in ["\u{2003}x\u{85}", "x", "\r\nk\r\n", "\u{200b}x"] {
        assert_eq!(trim(s), s.trim());
    }
}

#[test]
fn every_white_character_is_trimmed() {
    let mut c: u32 = 0;
    while c < 0x3100 {
        if let Some(ch) = char::from_u32(c) {
            let s = ch.to_string();
            assert_eq!(trim(&s), s.trim(), "{:x}", c);
        }
        c += 1;
    }
}

#[test]
fn text_is_padded_to_a_width() {
    assert_eq!(pad("ab", 4), "ab  ");
    assert_eq!(pad("ż", 2), "ż ");
    assert_eq!(pad("abc", 2), "abc");
    assert_eq!(pad("", 3), format!("{:<3}", ""));
}

#[test]
fn prefixes_are_counted_in_bytes() {
    assert_eq!(byte_prefix("abcdef", 3), "abc");
    assert_eq!(byte_prefix("żab", 2), "ż");
    assert_eq!(byte_prefix("ab", 0), "");
    assert_eq!(byte_prefix("ab", 2), "ab");
}
