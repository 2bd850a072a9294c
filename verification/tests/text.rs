use insurance_prover::text::{chars_of, parse_field, push_decimal, push_signed_decimal, whitespace};

fn decimal_of(n: u64) -> String {
    let mut out = String::new();
    push_decimal(&mut out, n);
    out
}

fn signed_decimal_of(n: i64) -> String {
    let mut out = String::new();
    push_signed_decimal(&mut out, n);
    out
}

#[test]
fn decimal_of_zero_is_one_digit() {
    assert_eq!(decimal_of(0), "0");
}

#[test]
fn decimal_of_single_digits() {
    for n in 0..10u64 {
        assert_eq!(decimal_of(n), format!("{}", n));
    }
}

#[test]
fn decimal_has_no_leading_zeros() {
    assert_eq!(decimal_of(10), "10");
    assert_eq!(decimal_of(100), "100");
    assert_eq!(decimal_of(1005), "1005");
}

#[test]
fn decimal_of_the_largest_values() {
    assert_eq!(decimal_of(4294967295), "4294967295");
    assert_eq!(decimal_of(u64::MAX), "18446744073709551615");
}

#[test]
fn decimal_agrees_with_the_standard_formatter() {
    let mut n: u64 = 1;
    while n < u64::MAX / 7 {
        assert_eq!(decimal_of(n), format!("{}", n));
        assert_eq!(decimal_of(n - 1), format!("{}", n - 1));
        n = n * 7 + 3;
    }
}

#[test]
fn decimal_appends_to_what_is_there() {
    let mut out = String::from("n=");
    push_decimal(&mut out, 42);
    assert_eq!(out, "n=42");
}

#[test]
fn signed_decimal_of_negative_numbers() {
    assert_eq!(signed_decimal_of(-1), "-1");
    assert_eq!(signed_decimal_of(-1700000000), "-1700000000");
}

#[test]
fn signed_decimal_of_the_extremes() {
    assert_eq!(signed_decimal_of(i64::MIN), "-9223372036854775808");
    assert_eq!(signed_decimal_of(i64::MAX), "9223372036854775807");
    assert_eq!(signed_decimal_of(0), "0");
}

#[test]
fn signed_decimal_agrees_with_the_standard_formatter() {
    for n in [-10i64, -9, 9, 10, 1431648000, -86400, i64::MIN + 1] {
        assert_eq!(signed_decimal_of(n), format!("{}", n));
    }
}

#[test]
fn chars_of_gives_every_character_in_order() {
    assert_eq!(chars_of("a\u{e9}\u{3000}z"), vec!['a', '\u{e9}', '\u{3000}', 'z']);
    assert_eq!(chars_of(""), Vec::<char>::new());
}

#[test]
fn whitespace_agrees_with_the_standard_library_on_every_character() {
    for code in 0..=0x10FFFFu32 {
        if let Some(c) = char::from_u32(code) {
            assert_eq!(whitespace(c), c.is_whitespace(), "U+{:04X}", code);
        }
    }
}

#[test]
fn parse_field_reads_a_plain_number() {
    assert_eq!(parse_field("15"), Some(15));
    assert_eq!(parse_field("220"), Some(220));
    assert_eq!(parse_field("0"), Some(0));
}

#[test]
fn parse_field_sets_the_line_ending_aside() {
    assert_eq!(parse_field("15\n"), Some(15));
    assert_eq!(parse_field("220\r\n"), Some(220));
    assert_eq!(parse_field("  \t 7 \n"), Some(7));
}

#[test]
fn parse_field_trims_unicode_white_space() {
    assert_eq!(parse_field("\u{3000}7\u{a0}"), Some(7));
    assert_eq!(parse_field("\u{2003}19\u{85}"), Some(19));
}

#[test]
fn parse_field_refuses_what_is_no_number() {
    assert_eq!(parse_field("abc"), None);
    assert_eq!(parse_field(""), None);
    assert_eq!(parse_field("\n"), None);
    assert_eq!(parse_field("   "), None);
    assert_eq!(parse_field("1 2"), None);
    assert_eq!(parse_field("12a"), None);
    assert_eq!(parse_field("1.5"), None);
    assert_eq!(parse_field("0x10"), None);
}

#[test]
fn parse_field_takes_a_plus_sign_and_no_minus_sign() {
    assert_eq!(parse_field("+5"), Some(5));
    assert_eq!(parse_field("-5"), None);
    assert_eq!(parse_field("-0"), None);
    assert_eq!(parse_field("+"), None);
    assert_eq!(parse_field("-"), None);
    assert_eq!(parse_field("++5"), None);
    assert_eq!(parse_field("+ 5"), None);
}

#[test]
fn parse_field_takes_leading_zeros() {
    assert_eq!(parse_field("00012"), Some(12));
    assert_eq!(parse_field("0000000000000000000000001"), Some(1));
}

#[test]
fn parse_field_stops_at_thirty_two_bits() {
    assert_eq!(parse_field("4294967295"), Some(u32::MAX));
    assert_eq!(parse_field("4294967296"), None);
    assert_eq!(parse_field("42949672950"), None);
    assert_eq!(parse_field("99999999999999999999999999999999"), None);
}

#[test]
fn parse_field_takes_only_ascii_digits() {
    assert_eq!(parse_field("\u{661}\u{662}"), None);
    assert_eq!(parse_field("\u{ff11}"), None);
}

#[test]
fn parse_field_agrees_with_trim_and_parse() {
    let lines = [
        "15", " 15", "15 ", "\t15\r\n", "+15", "-15", "", " ", "+", "1e3", "007", "4294967295",
        "4294967296", "18446744073709551616", "1\u{a0}", "\u{a0}1", "1\u{200b}", "\u{661}\u{665}", "15\n\n",
        "1_000", "+0", "+-1", "2 5", "25x", "x25", "\u{feff}25",
    ];
    for line in lines {
        assert_eq!(parse_field(line), line.trim().parse::<u32>().ok(), "{:?}", line);
    }
}
