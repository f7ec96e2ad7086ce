use tungsten::decimal::dec_i64;
use tungsten::decimal::dec_u64;
use tungsten::decimal::parse_i64;
use tungsten::lexer::chop_word;
use tungsten::lexer::find_col;
use tungsten::lexer::lex_line;
use tungsten::lexer::strip_col;

#[test]
fn lex_line_splits_on_whitespace() {
    let words = lex_line("  1 2\t +   DUMP ");
    let expected: Vec<String> = vec!["1", "2", "+", "DUMP"]
        .into_iter()
        .map(|s| s.to_string())
        .collect();
    assert_eq!(words, expected);
}

#[test]
fn lex_line_of_blank_line_is_empty() {
    assert!(lex_line("").is_empty());
    assert!(lex_line("   \t  ").is_empty());
}

#[test]
fn lex_line_single_word() {
    assert_eq!(lex_line("WHILE"), vec!["WHILE".to_string()]);
}

#[test]
fn strip_col_skips_leading_whitespace() {
    assert_eq!(strip_col("   ab", 0), 3);
    assert_eq!(strip_col("ab", 0), 0);
    assert_eq!(strip_col("  ", 0), 2);
}

#[test]
fn chop_word_stops_at_whitespace() {
    assert_eq!(chop_word("ab cd", 0), 2);
    assert_eq!(chop_word("abcd", 1), 4);
}

#[test]
fn find_col_finds_first_match() {
    assert_eq!(find_col("hello world", 0, |c| c == 'o'), 4);
    assert_eq!(find_col("hello world", 5, |c| c == 'o'), 7);
    assert_eq!(find_col("hello", 0, |c| c == 'z'), 5);
}

#[test]
fn decimal_rendering() {
    assert_eq!(dec_u64(0), "0");
    assert_eq!(dec_u64(12345), "12345");
    assert_eq!(dec_i64(0), "0");
    assert_eq!(dec_i64(-5), "-5");
    assert_eq!(dec_i64(i64::MAX), "9223372036854775807");
    assert_eq!(dec_i64(i64::MIN), "-9223372036854775808");
}

#[test]
fn integer_parsing_accepts_signs_and_bounds() {
    assert_eq!(parse_i64("0"), Some(0));
    assert_eq!(parse_i64("+5"), Some(5));
    assert_eq!(parse_i64("-17"), Some(-17));
    assert_eq!(parse_i64("9223372036854775807"), Some(i64::MAX));
    assert_eq!(parse_i64("-9223372036854775808"), Some(i64::MIN));
}

#[test]
fn integer_parsing_rejects_malformed_and_overflow() {
    assert_eq!(parse_i64(""), None);
    assert_eq!(parse_i64("-"), None);
    assert_eq!(parse_i64("+"), None);
    assert_eq!(parse_i64("12x"), None);
    assert_eq!(parse_i64("1 2"), None);
    assert_eq!(parse_i64("9223372036854775808"), None);
    assert_eq!(parse_i64("-9223372036854775809"), None);
    assert_eq!(parse_i64("99999999999999999999999999"), None);
}
