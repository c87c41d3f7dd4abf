use cathode::text::{parse_u64, split, tokens, Separator};

#[test]
fn split_keeps_empty_pieces() {
    assert_eq!(split("a,,b,", Separator::Char(',')), vec!["a", "", "b", ""]);
}

#[test]
fn split_of_empty_text_is_one_empty_piece() {
    assert_eq!(split("", Separator::Char('"')), vec![""]);
}

#[test]
fn split_without_separator_is_the_text() {
    assert_eq!(split("plain", Separator::Char('"')), vec!["plain"]);
}

#[test]
fn split_handles_wide_characters() {
    assert_eq!(split("é|ü|", Separator::Char('|')), vec!["é", "ü", ""]);
}

#[test]
fn split_at_white_space() {
    assert_eq!(split("a \tb\nc", Separator::Whitespace), vec!["a", "", "b", "c"]);
}

#[test]
fn tokens_drop_empty_pieces() {
    assert_eq!(tokens("  173.00  1920 \t 2048"), vec!["173.00", "1920", "2048"]);
}

#[test]
fn tokens_part_at_tabs_and_line_ends() {
    assert_eq!(tokens("a\tb c\r\nd"), vec!["a", "b", "c", "d"]);
}

#[test]
fn tokens_agree_with_std_on_plain_text() {
    for line in ["", " ", "one", " one  two\tthree \n", "-hsync +vsync"] {
        let expected: Vec<String> = line.split_ascii_whitespace().map(|t| t.to_string()).collect();
        assert_eq!(tokens(line), expected);
    }
}

#[test]
fn tokens_of_blank_line_are_none() {
    assert_eq!(tokens("   "), Vec::<String>::new());
}

#[test]
fn parse_u64_reads_plain_numbers() {
    assert_eq!(parse_u64("30"), Some(30));
    assert_eq!(parse_u64("0"), Some(0));
    assert_eq!(parse_u64("007"), Some(7));
    assert_eq!(parse_u64("+12"), Some(12));
}

#[test]
fn parse_u64_refuses_what_is_no_number() {
    assert_eq!(parse_u64(""), None);
    assert_eq!(parse_u64("+"), None);
    assert_eq!(parse_u64("-5"), None);
    assert_eq!(parse_u64("abc"), None);
    assert_eq!(parse_u64("1 2"), None);
    assert_eq!(parse_u64("++1"), None);
    assert_eq!(parse_u64("12a"), None);
}

#[test]
fn parse_u64_at_the_limit() {
    assert_eq!(parse_u64("18446744073709551615"), Some(u64::MAX));
    assert_eq!(parse_u64("18446744073709551616"), None);
    assert_eq!(parse_u64("99999999999999999999999"), None);
}

#[test]
fn parse_u64_agrees_with_std() {
    for s in ["0", "1", "+1", "-1", "", "+", "42", "18446744073709551615", "18446744073709551616", "x", "4x", " 4"] {
        assert_eq!(parse_u64(s), s.parse::<u64>().ok());
    }
}
