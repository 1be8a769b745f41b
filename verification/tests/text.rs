use hunter_bot::numerals::{parse_unsigned, push_decimal, push_hex, ParseFailure};
use hunter_bot::text::{
    ascii_lower_of, char_is_whitespace, cut_out, find, from_chars, join3, join4, join5,
    matches_at, same_chars, same_text, split_on, to_chars, tokenize, trim_bounds, word_folds_to,
    word_is_please,
};

fn chars(s: &str) -> Vec<char> {
    s.chars().collect()
}

#[test]
fn chars_round_trip() {
    let c = to_chars("héllo wörld");
    assert_eq!(c, chars("héllo wörld"));
    assert_eq!(from_chars(&c, 0, c.len()), "héllo wörld");
    assert_eq!(from_chars(&c, 1, 4), "éll");
    assert_eq!(from_chars(&c, 3, 3), "");
    assert_eq!(to_chars(""), Vec::<char>::new());
}

#[test]
fn same_text_compares_characters() {
    assert!(same_text("ping", "ping"));
    assert!(!same_text("ping", "Ping"));
    assert!(!same_text("ping", "pin"));
    assert!(same_text("", ""));
    assert!(same_chars(&chars("ab"), &chars("ab")));
    assert!(!same_chars(&chars("ab"), &chars("ba")));
}

#[test]
fn whitespace_is_that_of_unicode() {
    for c in [' ', '\t', '\n', '\u{b}', '\u{c}', '\r', '\u{85}', '\u{a0}', '\u{1680}', '\u{2000}',
        '\u{200a}', '\u{2028}', '\u{2029}', '\u{202f}', '\u{205f}', '\u{3000}']
    {
        assert!(char_is_whitespace(c), "{:?}", c);
    }
    for c in ['a', '@', '0', '\u{8}', '\u{e}', '\u{200b}', '\u{feff}', '\u{180e}'] {
        assert!(!char_is_whitespace(c), "{:?}", c);
    }
}

#[test]
fn whitespace_agrees_with_std_on_every_character() {
    let mut u: u32 = 0;
    while u <= 0x10ffff {
        if let Some(c) = char::from_u32(u) {
            assert_eq!(char_is_whitespace(c), c.is_whitespace(), "U+{:04X}", u);
        }
        u += 1;
    }
}

#[test]
fn trim_bounds_give_the_trimmed_part() {
    let c = chars("  \t ping me \n");
    assert_eq!(trim_bounds(&c), (4, 11));
    let c = chars("ping");
    assert_eq!(trim_bounds(&c), (0, 4));
    let c = chars(" \u{3000} ");
    let (start, end) = trim_bounds(&c);
    assert_eq!(start, end);
    assert_eq!(trim_bounds(&chars("")), (0, 0));
}

#[test]
fn trim_agrees_with_std() {
    for s in ["", " ", "a", " a", "a ", "  a b  ", "\u{a0}x\u{2003}", "\n\n", " é "] {
        let c = chars(s);
        let (start, end) = trim_bounds(&c);
        assert_eq!(from_chars(&c, start, end), s.trim(), "{:?}", s);
    }
}

#[test]
fn find_gives_the_first_occurrence() {
    assert_eq!(find(&chars("hello @bot and @bot"), &chars("@bot")), Some(6));
    assert_eq!(find(&chars("@bot"), &chars("@bot")), Some(0));
    assert_eq!(find(&chars("hello"), &chars("@bot")), None);
    assert_eq!(find(&chars("@bo"), &chars("@bot")), None);
    assert_eq!(find(&chars("abc"), &chars("")), Some(0));
    assert_eq!(find(&chars(""), &chars("")), Some(0));
    assert_eq!(find(&chars("aab"), &chars("ab")), Some(1));
    assert_eq!(find(&chars("xxab"), &chars("ab")), Some(2));
}

#[test]
fn matches_at_compares_in_place() {
    assert!(matches_at(&chars("say @bot"), &chars("@bot"), 4));
    assert!(!matches_at(&chars("say @bot"), &chars("@bot"), 3));
    assert!(matches_at(&chars("abc"), &chars(""), 3));
}

#[test]
fn cut_out_removes_a_range() {
    assert_eq!(cut_out(&chars("hello @bot ping"), 6, 4), chars("hello  ping"));
    assert_eq!(cut_out(&chars("@bot"), 0, 4), chars(""));
    assert_eq!(cut_out(&chars("abc"), 3, 0), chars("abc"));
    assert_eq!(cut_out(&chars("abc"), 1, 1), chars("ac"));
}

#[test]
fn tokenize_splits_at_whitespace() {
    assert_eq!(tokenize(&chars("please  ping\tme\n")), vec!["please", "ping", "me"]);
    assert_eq!(tokenize(&chars("ping")), vec!["ping"]);
    assert_eq!(tokenize(&chars("")), Vec::<String>::new());
    assert_eq!(tokenize(&chars(" \u{2003} ")), Vec::<String>::new());
    assert_eq!(tokenize(&chars("a\u{a0}b")), vec!["a", "b"]);
}

#[test]
fn tokenize_agrees_with_std() {
    for s in ["", " a  b ", "one", "x\ty\nz", " é  ü ", "\u{3000}a"] {
        let expected: Vec<String> = s.split_whitespace().map(|w| w.to_string()).collect();
        assert_eq!(tokenize(&chars(s)), expected, "{:?}", s);
    }
}

#[test]
fn please_in_any_case() {
    assert!(word_is_please("please"));
    assert!(word_is_please("PLEASE"));
    assert!(word_is_please("PleAse"));
    assert!(!word_is_please("pleas"));
    assert!(!word_is_please("pleasee"));
    assert!(!word_is_please("plea\u{17f}e"));
    assert!(!word_is_please(""));
    assert!(!word_is_please("ping"));
}

#[test]
fn please_agrees_with_lowercasing() {
    for s in ["please", "Please", "PLEASE", "plEase", "pleas", "plea\u{17f}e", "\u{212a}lease",
        "pleasE", "plea5e"]
    {
        assert_eq!(word_is_please(s), s.to_lowercase() == "please", "{:?}", s);
    }
}

#[test]
fn folding_touches_capital_letters_only() {
    assert_eq!(ascii_lower_of('A'), 'a');
    assert_eq!(ascii_lower_of('Z'), 'z');
    assert_eq!(ascii_lower_of('a'), 'a');
    assert_eq!(ascii_lower_of('@'), '@');
    assert_eq!(ascii_lower_of('['), '[');
    assert_eq!(ascii_lower_of('É'), 'É');
    assert!(word_folds_to("WaRn", "warn"));
    assert!(!word_folds_to("warn", "WARN"));
    assert!(!word_folds_to("warning", "warn"));
}

#[test]
fn decimal_numerals() {
    for n in [0u64, 7, 10, 42, 100, 1234567890, u64::MAX] {
        let mut s = String::from("#");
        push_decimal(&mut s, n);
        assert_eq!(s, format!("#{}", n));
    }
}

#[test]
fn hexadecimal_is_lower_case_two_digits_each() {
    let mut s = String::new();
    push_hex(&mut s, &[0x00, 0x0f, 0xa0, 0xff, 0x7b]);
    assert_eq!(s, "000fa0ff7b");
    let mut s = String::from("sha1=");
    push_hex(&mut s, &[]);
    assert_eq!(s, "sha1=");
    let all: Vec<u8> = (0..=255u8).collect();
    let mut s = String::new();
    push_hex(&mut s, &all);
    let expected: String = all.iter().map(|b| format!("{:02x}", b)).collect();
    assert_eq!(s, expected);
}

#[test]
fn joins_keep_the_order() {
    assert_eq!(join3("a", "b", "c"), "abc");
    assert_eq!(join4("a", "", "c", "d"), "acd");
    assert_eq!(join5("1", "2", "3", "4", "5"), "12345");
}

#[test]
fn numbers_parse_as_in_std() {
    assert_eq!(parse_unsigned("0", u64::MAX), Ok(0));
    assert_eq!(parse_unsigned("5", u64::MAX), Ok(5));
    assert_eq!(parse_unsigned("+17", u64::MAX), Ok(17));
    assert_eq!(parse_unsigned("007", u64::MAX), Ok(7));
    assert_eq!(parse_unsigned("18446744073709551615", u64::MAX), Ok(u64::MAX));
    assert_eq!(parse_unsigned("18446744073709551616", u64::MAX), Err(ParseFailure::TooLarge));
    assert_eq!(parse_unsigned("", u64::MAX), Err(ParseFailure::Empty));
    assert_eq!(parse_unsigned("+", u64::MAX), Err(ParseFailure::InvalidDigit));
    assert_eq!(parse_unsigned("-", u64::MAX), Err(ParseFailure::InvalidDigit));
    assert_eq!(parse_unsigned("-1", u64::MAX), Err(ParseFailure::InvalidDigit));
    assert_eq!(parse_unsigned("12a", u64::MAX), Err(ParseFailure::InvalidDigit));
    assert_eq!(parse_unsigned(" 1", u64::MAX), Err(ParseFailure::InvalidDigit));
    assert_eq!(parse_unsigned("++1", u64::MAX), Err(ParseFailure::InvalidDigit));
    assert_eq!(parse_unsigned("255", 255), Ok(255));
    assert_eq!(parse_unsigned("256", 255), Err(ParseFailure::TooLarge));
    assert_eq!(parse_unsigned("65535", 65535), Ok(65535));
    assert_eq!(parse_unsigned("65536", 65535), Err(ParseFailure::TooLarge));
    assert_eq!(parse_unsigned("99999999999999999999x", u64::MAX), Err(ParseFailure::TooLarge));
    assert_eq!(parse_unsigned("9x9999999999999999999", u64::MAX), Err(ParseFailure::InvalidDigit));
}

#[test]
fn number_parsing_agrees_with_std() {
    for s in ["", "+", "-", "0", "+0", "-0", "12", "255", "256", "1e3", "٣", "18446744073709551615",
        "18446744073709551616", "000000000000000000000000001", "3 "]
    {
        let ours = parse_unsigned(s, u64::MAX).ok();
        let theirs = s.parse::<u64>().ok();
        assert_eq!(ours, theirs, "{:?}", s);
        let ours = parse_unsigned(s, 255).ok();
        let theirs = s.parse::<u8>().ok().map(|b| b as u64);
        assert_eq!(ours, theirs, "{:?}", s);
    }
}

#[test]
fn failures_are_described() {
    assert_eq!(ParseFailure::Empty.description(), "cannot parse integer from empty string");
    assert_eq!(ParseFailure::InvalidDigit.description(), "invalid digit found in string");
    assert_eq!(ParseFailure::TooLarge.description(), "number too large to fit in target type");
}

#[test]
fn split_keeps_empty_pieces() {
    assert_eq!(split_on(&chars("127.0.0.1"), '.'), vec!["127", "0", "0", "1"]);
    assert_eq!(split_on(&chars(""), '.'), vec![""]);
    assert_eq!(split_on(&chars("."), '.'), vec!["", ""]);
    assert_eq!(split_on(&chars("a..b."), '.'), vec!["a", "", "b", ""]);
    assert_eq!(split_on(&chars("abc"), '.'), vec!["abc"]);
}
