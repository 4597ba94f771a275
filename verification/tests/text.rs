use imap_engine::text::{
    char_to_digit, digit_to_char, parse_u32, push_decimal, same_text, to_decimal,
};

#[test]
fn decimal_notation_matches_the_standard_one() {
    for n in [0u64, 1, 9, 10, 11, 99, 100, 101, 999, 1000, 4294967295, 4294967296, u64::MAX] {
        assert_eq!(to_decimal(n), n.to_string());
    }
    for n in 0u64..2000 {
        assert_eq!(to_decimal(n * 7919), (n * 7919).to_string());
    }
    assert_eq!(to_decimal(0), "0");
    assert_eq!(to_decimal(1380), "1380");
    assert_eq!(to_decimal(u64::MAX), "18446744073709551615");
}

#[test]
fn decimal_is_appended() {
    let mut s = String::from("uid ");
    push_decimal(&mut s, 120);
    assert_eq!(s, "uid 120");
    push_decimal(&mut s, 0);
    assert_eq!(s, "uid 1200");
}

#[test]
fn parsing_matches_the_standard_one() {
    let corpus = [
        "",
        "0",
        "7",
        "42",
        "+42",
        "+0",
        "+",
        "-",
        "-1",
        "-0",
        "007",
        "00000000000000000000000000000001",
        "4294967295",
        "+4294967295",
        "4294967296",
        "04294967296",
        "42949672950",
        "99999999999999999999",
        "18446744073709551616",
        "1 ",
        " 1",
        "1_000",
        "0x10",
        "1e3",
        "1.0",
        "+-1",
        "++1",
        "1+",
        "12a",
        "a12",
        "1:2",
        "\u{661}\u{662}",
        "\u{ff11}",
        "1\u{0}",
    ];
    for text in corpus {
        assert_eq!(parse_u32(text), text.parse::<u32>().ok(), "{:?}", text);
    }
    for n in 0u32..3000 {
        let text = (n.wrapping_mul(2654435761)).to_string();
        assert_eq!(parse_u32(&text), text.parse::<u32>().ok());
    }
}

#[test]
fn parsing_gives_exact_values() {
    assert_eq!(parse_u32("0"), Some(0));
    assert_eq!(parse_u32("+17"), Some(17));
    assert_eq!(parse_u32("0017"), Some(17));
    assert_eq!(parse_u32("4294967295"), Some(u32::MAX));
    assert_eq!(parse_u32("4294967296"), None);
    assert_eq!(parse_u32(""), None);
    assert_eq!(parse_u32("+"), None);
    assert_eq!(parse_u32("-17"), None);
    assert_eq!(parse_u32("17 "), None);
}

#[test]
fn written_numbers_are_read_back() {
    for n in [0u32, 1, 9, 10, 255, 65535, 65536, 2147483647, 2147483648, u32::MAX] {
        assert_eq!(parse_u32(&to_decimal(n as u64)), Some(n));
    }
}

#[test]
fn digits_and_characters() {
    let digits = ['0', '1', '2', '3', '4', '5', '6', '7', '8', '9'];
    for d in 0u8..10 {
        assert_eq!(digit_to_char(d), digits[d as usize]);
        assert_eq!(char_to_digit(digits[d as usize]), Some(d));
    }
    assert_eq!(digit_to_char(10), '9');
    assert_eq!(digit_to_char(255), '9');
    for c in ['a', ' ', '+', '-', ':', '/', '\u{661}', '\u{ff11}'] {
        assert_eq!(char_to_digit(c), None);
    }
}

#[test]
fn texts_are_compared_by_character() {
    assert!(same_text("", ""));
    assert!(same_text("INBOX", "INBOX"));
    assert!(!same_text("INBOX", "inbox"));
    assert!(!same_text("INBOX", "INBOX "));
    assert!(!same_text("a", ""));
    assert!(same_text("Entw\u{fc}rfe", "Entw\u{fc}rfe"));
    assert!(!same_text("Entw\u{fc}rfe", "Entwu\u{308}rfe"));
}
