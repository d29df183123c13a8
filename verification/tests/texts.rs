use jsonsql::text::{
    format_decimal, from_chars, join, parse_unsigned, split_chars, strip_char, to_chars,
};

fn chars(text: &str) -> Vec<char> {
    text.chars().collect()
}

fn strings(items: &[&str]) -> Vec<String> {
    items.iter().map(|s| String::from(*s)).collect()
}

#[test]
fn text_to_characters_and_back() {
    assert_eq!(to_chars("a\u{00e9}\u{4e2d}"), vec!['a', '\u{00e9}', '\u{4e2d}']);
    assert_eq!(to_chars(""), Vec::<char>::new());
    assert_eq!(from_chars(&vec!['a', '\u{00e9}', '\u{4e2d}']), "a\u{00e9}\u{4e2d}");
    assert_eq!(from_chars(&Vec::new()), "");
}

#[test]
fn strip_takes_out_every_occurrence() {
    assert_eq!(strip_char("it's 'quoted'", '\''), "its quoted");
    assert_eq!(strip_char("'''", '\''), "");
    assert_eq!(strip_char("none", '\''), "none");
    assert_eq!(strip_char("", '\''), "");
    assert_eq!(strip_char("a.b.c", '.'), "abc");
}

#[test]
fn join_puts_the_separator_between() {
    assert_eq!(join(&strings(&["a", "b", "c"]), ", "), "a, b, c");
    assert_eq!(join(&strings(&["a"]), ", "), "a");
    assert_eq!(join(&strings(&[]), ", "), "");
    assert_eq!(join(&strings(&["", ""]), "-"), "-");
    assert_eq!(join(&strings(&["a", "b"]), ""), "ab");
}

#[test]
fn split_gives_one_piece_more_than_separators() {
    assert_eq!(split_chars("1.2.3", '.'), vec![chars("1"), chars("2"), chars("3")]);
    assert_eq!(split_chars("", '.'), vec![chars("")]);
    assert_eq!(split_chars(".", '.'), vec![chars(""), chars("")]);
    assert_eq!(split_chars("a..b.", '.'), vec![chars("a"), chars(""), chars("b"), chars("")]);
    assert_eq!(split_chars("abc", '.'), vec![chars("abc")]);
}

#[test]
fn split_pieces_join_back() {
    for text in ["", ".", "..", "1.2.3.4", ".a", "a.", "a..b", "no dots", "\u{4e2d}.\u{6587}"] {
        let pieces = split_chars(text, '.');
        assert_eq!(pieces.len(), text.matches('.').count() + 1);
        assert!(pieces.iter().all(|piece| !piece.contains(&'.')));
        let strings: Vec<String> = pieces.iter().map(from_chars).collect();
        assert_eq!(join(&strings, "."), text);
    }
}

#[test]
fn unsigned_numbers_within_the_bound() {
    assert_eq!(parse_unsigned(&chars("0"), 255), Some(0));
    assert_eq!(parse_unsigned(&chars("255"), 255), Some(255));
    assert_eq!(parse_unsigned(&chars("+7"), 255), Some(7));
    assert_eq!(parse_unsigned(&chars("007"), 255), Some(7));
    assert_eq!(parse_unsigned(&chars("4294967295"), u32::MAX), Some(u32::MAX));
    assert_eq!(parse_unsigned(&chars("0"), 0), Some(0));
}

#[test]
fn unsigned_numbers_beyond_the_bound() {
    assert_eq!(parse_unsigned(&chars("256"), 255), None);
    assert_eq!(parse_unsigned(&chars("4294967296"), u32::MAX), None);
    assert_eq!(parse_unsigned(&chars("99999999999999999999999999"), u32::MAX), None);
    assert_eq!(parse_unsigned(&chars("1"), 0), None);
}

#[test]
fn text_that_is_no_unsigned_number() {
    for text in ["", "+", "-", "-1", "++1", "1+", "1 ", " 1", "1.0", "1e3", "0x1", "\u{0661}"] {
        assert_eq!(parse_unsigned(&chars(text), u32::MAX), None, "{:?}", text);
    }
}

#[test]
fn decimal_numbers_as_text() {
    assert_eq!(format_decimal(0), "0");
    assert_eq!(format_decimal(7), "7");
    assert_eq!(format_decimal(10), "10");
    assert_eq!(format_decimal(111), "111");
    assert_eq!(format_decimal(-1), "-1");
    assert_eq!(format_decimal(-120), "-120");
    assert_eq!(format_decimal(i32::MAX), "2147483647");
    assert_eq!(format_decimal(i32::MIN), "-2147483648");
}

#[test]
fn written_numbers_read_back() {
    for value in [0u32, 1, 9, 10, 99, 100, 255, 65535, 1_000_000, i32::MAX as u32] {
        let text = format_decimal(value as i32);
        assert_eq!(text, value.to_string());
        assert_eq!(parse_unsigned(&to_chars(&text), u32::MAX), Some(value));
    }
}
