use rustservant::number::{decimal_string, parse_i32, parse_u64, IntErrorKind};
use rustservant::text::{
    chars_of, contains, remove_all_exec, str_contains, str_equal, string_from_chars, trim_chars,
};

fn trimmed(s: &str) -> String {
    string_from_chars(&trim_chars(&chars_of(s)))
}

#[test]
fn str_equal_compares_characters() {
    assert!(str_equal("heli", "heli"));
    assert!(!str_equal("heli", "Heli"));
    assert!(!str_equal("heli", "helic"));
    assert!(str_equal("", ""));
}

#[test]
fn contains_finds_substrings() {
    assert!(str_contains("not paired with server", "not paired"));
    assert!(str_contains("abc", ""));
    assert!(!str_contains("ab", "abc"));
    assert!(contains(&chars_of("xxabyy"), &chars_of("aby")));
    assert!(!contains(&chars_of("xxabyy"), &chars_of("ba")));
}

#[test]
fn remove_all_takes_out_every_occurrence() {
    let s = remove_all_exec(&chars_of("SERVER_NAME:My SERVER_NAME:Server"), &chars_of("SERVER_NAME:"));
    assert_eq!(s, "My Server");
    let s = remove_all_exec(&chars_of("aaa"), &chars_of("aa"));
    assert_eq!(s, "a");
    let s = remove_all_exec(&chars_of("abc"), &chars_of(""));
    assert_eq!(s, "abc");
    assert_eq!("aaa".replace("aa", ""), "a");
}

#[test]
fn trim_matches_std() {
    for s in ["  !help  ", "\t!time\n", "\u{3000}!pop\u{2009}", "", "   ", "a b", "\u{85}x\u{a0}"] {
        assert_eq!(trimmed(s), s.trim());
    }
}


#[test]
fn decimal_writes_digits() {
    assert_eq!(decimal_string(0), "0");
    assert_eq!(decimal_string(7), "7");
    assert_eq!(decimal_string(1234), "1234");
    assert_eq!(decimal_string(u64::MAX), u64::MAX.to_string());
}

#[test]
fn parse_u64_matches_std() {
    let cases = [
        "42", "+7", "007", "-5", "", "+", "-", "18446744073709551615", "18446744073709551616",
        "99999999999999999999x", "9x", " 5", "5 ", "٣", "+-1",
    ];
    for s in cases {
        let expected = s.parse::<u64>();
        match parse_u64(s) {
            Ok(v) => assert_eq!(Ok(v), expected.clone().map_err(|_| ()), "{s}"),
            Err(k) => {
                let e = expected.expect_err(s);
                let want = match e.kind() {
                    std::num::IntErrorKind::Empty => IntErrorKind::Empty,
                    std::num::IntErrorKind::InvalidDigit => IntErrorKind::InvalidDigit,
                    std::num::IntErrorKind::PosOverflow => IntErrorKind::PosOverflow,
                    std::num::IntErrorKind::NegOverflow => IntErrorKind::NegOverflow,
                    _ => panic!("unexpected kind"),
                };
                assert_eq!(k, want, "{s}");
                assert_eq!(k.message(), e.to_string());
            }
        }
    }
}

#[test]
fn parse_i32_matches_std() {
    let cases = [
        "42", "-42", "+42", "2147483647", "2147483648", "-2147483648", "-2147483649", "",
        "-", "+", "--1", "12a", "99999999999b", "-99999999999b", "0", "-0",
    ];
    for s in cases {
        let expected = s.parse::<i32>();
        match parse_i32(s) {
            Ok(v) => assert_eq!(Ok(v), expected.clone().map_err(|_| ()), "{s}"),
            Err(k) => {
                let e = expected.expect_err(s);
                let want = match e.kind() {
                    std::num::IntErrorKind::Empty => IntErrorKind::Empty,
                    std::num::IntErrorKind::InvalidDigit => IntErrorKind::InvalidDigit,
                    std::num::IntErrorKind::PosOverflow => IntErrorKind::PosOverflow,
                    std::num::IntErrorKind::NegOverflow => IntErrorKind::NegOverflow,
                    _ => panic!("unexpected kind"),
                };
                assert_eq!(k, want, "{s}");
                assert_eq!(k.message(), e.to_string());
            }
        }
    }
}

#[test]
fn parse_error_kinds_have_std_texts() {
    assert_eq!(IntErrorKind::Empty.message(), "cannot parse integer from empty string");
    assert_eq!(IntErrorKind::InvalidDigit.message(), "invalid digit found in string");
    assert_eq!(IntErrorKind::PosOverflow.message(), "number too large to fit in target type");
    assert_eq!(IntErrorKind::NegOverflow.message(), "number too small to fit in target type");
}
