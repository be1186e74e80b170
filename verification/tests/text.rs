use liglicko2::text::{chars_of, find_char, matches_at, read_u32, strip_prefix_suffix};

fn number(text: &str) -> Option<u32> {
    let chars = chars_of(text);
    read_u32(&chars, 0, chars.len())
}

#[test]
fn chars_of_keeps_every_character() {
    assert_eq!(chars_of("a→b"), ['a', '→', 'b']);
    assert!(chars_of("").is_empty());
}

#[test]
fn find_char_finds_the_first() {
    assert_eq!(find_char(&chars_of("12+3+4"), '+'), 2);
    assert_eq!(find_char(&chars_of("+"), '+'), 0);
    assert_eq!(find_char(&chars_of("123"), '+'), 3);
    assert_eq!(find_char(&chars_of(""), '+'), 0);
    assert_eq!(find_char(&chars_of("é+"), '+'), 1);
}

#[test]
fn read_u32_reads_decimal_numbers() {
    assert_eq!(number("0"), Some(0));
    assert_eq!(number("42"), Some(42));
    assert_eq!(number("+42"), Some(42));
    assert_eq!(number("000"), Some(0));
    assert_eq!(number("0000000000000000000001"), Some(1));
    assert_eq!(number("4294967295"), Some(u32::MAX));
}

#[test]
fn read_u32_rejects_the_rest() {
    for text in ["", "+", "-", "-1", "++1", "1+", "4294967296", "42949672950", "1_000", "0x10", "1.0", " 1", "1 ", "٣"] {
        assert_eq!(number(text), None, "{text:?}");
    }
}

#[test]
fn read_u32_agrees_with_the_standard_parser() {
    for text in ["0", "7", "+7", "+", "", "-0", "00", "4294967295", "4294967296", "12a", "+-1", "1e3"] {
        assert_eq!(number(text), text.parse::<u32>().ok(), "{text:?}");
    }
}

#[test]
fn read_u32_reads_a_part_of_the_text() {
    let chars = chars_of("ab+12cd");
    assert_eq!(read_u32(&chars, 2, 5), Some(12));
    assert_eq!(read_u32(&chars, 3, 5), Some(12));
    assert_eq!(read_u32(&chars, 3, 4), Some(1));
    assert_eq!(read_u32(&chars, 3, 3), None);
    assert_eq!(read_u32(&chars, 2, 3), None);
    assert_eq!(read_u32(&chars, 3, 6), None);
}

#[test]
fn matches_at_compares_in_place() {
    let text = chars_of("abcabc");
    assert!(matches_at(&text, 0, &chars_of("abc")));
    assert!(matches_at(&text, 3, &chars_of("abc")));
    assert!(matches_at(&text, 6, &chars_of("")));
    assert!(!matches_at(&text, 7, &chars_of("")));
    assert!(!matches_at(&text, 4, &chars_of("abc")));
    assert!(!matches_at(&text, 1, &chars_of("abc")));
    assert!(!matches_at(&text, usize::MAX, &chars_of("a")));
    assert!(!matches_at(&chars_of("ab"), 0, &chars_of("abc")));
}

#[test]
fn strip_prefix_suffix_agrees_with_the_standard_library() {
    for (text, prefix, suffix) in [("[a]", "[", "]"), ("[]", "[", "]"), ("[", "[", "]"), ("]", "[", "]"), ("[[a]]", "[[", "]"), ("xay", "x", "yy")] {
        let expected = text.strip_prefix(prefix).and_then(|rest| rest.strip_suffix(suffix));
        assert_eq!(strip_prefix_suffix(text, prefix, suffix), expected);
    }
}
