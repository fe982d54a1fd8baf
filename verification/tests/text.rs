use xmt::text::{chars_of, decimal_string, parse_number, trim};

#[test]
fn chars_of_gives_each_character() {
    assert_eq!(chars_of("a✔b"), vec!['a', '✔', 'b']);
    assert_eq!(chars_of(""), Vec::<char>::new());
}

#[test]
fn trim_removes_blanks_at_both_ends() {
    assert_eq!(trim("  hello \n"), "hello");
    assert_eq!(trim("\t\r\n x y \u{a0}"), "x y");
}

#[test]
fn trim_keeps_blanks_inside() {
    assert_eq!(trim(" a  b "), "a  b");
}

#[test]
fn trim_of_blanks_only_is_empty() {
    assert_eq!(trim(" \n\t "), "");
    assert_eq!(trim(""), "");
}

#[test]
fn trim_leaves_a_text_without_blanks_alone() {
    assert_eq!(trim("n"), "n");
    assert_eq!(trim("✔ done ✔"), "✔ done ✔");
}

#[test]
fn trim_agrees_with_std() {
    let samples = [
        "", " ", "a", " a", "a ", "\u{2003}wide\u{3000}", "\u{feff}bom", "x\u{85}",
        "\u{1680}ogham\u{2028}", "two words\r\n", "✔",
    ];
    for sample in samples {
        assert_eq!(trim(sample), sample.trim());
    }
}

#[test]
fn decimal_string_of_small_numbers() {
    assert_eq!(decimal_string(0), "0");
    assert_eq!(decimal_string(7), "7");
    assert_eq!(decimal_string(10), "10");
    assert_eq!(decimal_string(42), "42");
    assert_eq!(decimal_string(1005), "1005");
}

#[test]
fn decimal_string_of_the_largest_number() {
    assert_eq!(decimal_string(usize::MAX), usize::MAX.to_string());
}

#[test]
fn parse_number_reads_digits() {
    assert_eq!(parse_number("0"), Some(0));
    assert_eq!(parse_number("2"), Some(2));
    assert_eq!(parse_number("12"), Some(12));
    assert_eq!(parse_number("007"), Some(7));
}

#[test]
fn parse_number_takes_one_plus_sign() {
    assert_eq!(parse_number("+2"), Some(2));
    assert_eq!(parse_number("++2"), None);
    assert_eq!(parse_number("+"), None);
    assert_eq!(parse_number("2+"), None);
}

#[test]
fn parse_number_refuses_what_is_no_number() {
    assert_eq!(parse_number(""), None);
    assert_eq!(parse_number("x"), None);
    assert_eq!(parse_number("-1"), None);
    assert_eq!(parse_number("1 2"), None);
    assert_eq!(parse_number(" 1"), None);
    assert_eq!(parse_number("1_000"), None);
    assert_eq!(parse_number("1.5"), None);
    assert_eq!(parse_number("٣"), None);
    assert_eq!(parse_number("１"), None);
}

#[test]
fn parse_number_stops_at_the_largest_number() {
    let largest = usize::MAX.to_string();
    assert_eq!(parse_number(&largest), Some(usize::MAX));
    let mut too_large = largest.clone();
    too_large.push('0');
    assert_eq!(parse_number(&too_large), None);
    assert_eq!(parse_number("99999999999999999999999999999999999999999"), None);
}

#[test]
fn parse_number_agrees_with_std() {
    let samples = [
        "", "+", "-", "0", "+0", "-0", "1", "10", "0010", "18446744073709551615",
        "18446744073709551616", "4294967295", "4294967296", "12a", "a12", " 12", "12 ", "1e3",
        "0x10", "٣", "+12", "1+2",
    ];
    for sample in samples {
        assert_eq!(parse_number(sample), sample.parse::<usize>().ok());
    }
}

#[test]
fn parse_number_reads_back_what_decimal_string_writes() {
    let samples = [0usize, 1, 9, 10, 99, 100, 12345, usize::MAX];
    for sample in samples {
        assert_eq!(parse_number(&decimal_string(sample)), Some(sample));
    }
}

#[test]
fn is_blank_on_ascii() {
    for c in [' ', '\t', '\n', '\u{b}', '\u{c}', '\r'] {
        assert!(xmt::text::is_blank(c));
    }
    for code in 0u8..128 {
        let c = code as char;
        let expected = c == ' ' || ('\t'..='\r').contains(&c);
        assert_eq!(xmt::text::is_blank(c), expected);
    }
}

#[test]
fn is_blank_beyond_ascii() {
    assert!(xmt::text::is_blank('\u{a0}'));
    assert!(xmt::text::is_blank('\u{3000}'));
    assert!(!xmt::text::is_blank('越'));
    assert!(!xmt::text::is_blank('\u{200b}'));
}
