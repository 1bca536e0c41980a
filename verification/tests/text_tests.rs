//! String helpers and the settings.

use hd_cli::config::Config;
use hd_cli::parse::{parse_date, parse_digits, parse_time, parse_utc_offset};
use hd_cli::strutil::{contains_sub, pad2, pad4, str_eq, u8_to_string};

#[test]
fn digits_parse() {
    assert_eq!(parse_digits("0"), Some(0));
    assert_eq!(parse_digits("007"), Some(7));
    assert_eq!(parse_digits("1990"), Some(1990));
    assert_eq!(parse_digits("999999999"), Some(999_999_999));
    assert_eq!(parse_digits("1000000000"), None);
    assert_eq!(parse_digits(""), None);
    assert_eq!(parse_digits("12a"), None);
    assert_eq!(parse_digits("-5"), None);
}

#[test]
fn date_parse() {
    assert_eq!(parse_date("1990-05-15"), Ok((1990, 5, 15)));
    assert_eq!(parse_date("0090-1-2"), Ok((90, 1, 2)));
    assert!(parse_date("1990-05").is_err());
    assert!(parse_date("1990-05-15-3").is_err());
    assert!(parse_date("1990-13-15").is_err());
    assert!(parse_date("1990-00-15").is_err());
    assert!(parse_date("1990-05-32").is_err());
    assert!(parse_date("1990-05-00").is_err());
    assert!(parse_date("199O-05-15").is_err());
    assert!(parse_date("-100-05-15").is_err());
}

#[test]
fn time_parse() {
    assert_eq!(parse_time("14:30"), Ok((14, 30)));
    assert_eq!(parse_time("0:0"), Ok((0, 0)));
    assert_eq!(parse_time("23:59"), Ok((23, 59)));
    assert!(parse_time("24:00").is_err());
    assert!(parse_time("12:60").is_err());
    assert!(parse_time("12").is_err());
    assert!(parse_time("12:30:15").is_err());
    assert!(parse_time("a:b").is_err());
}

#[test]
fn offset_parse() {
    assert_eq!(parse_utc_offset("+3"), Ok(180));
    assert_eq!(parse_utc_offset("3"), Ok(180));
    assert_eq!(parse_utc_offset("-5"), Ok(-300));
    assert_eq!(parse_utc_offset("+5.5"), Ok(330));
    assert_eq!(parse_utc_offset("-9.75"), Ok(-585));
    assert_eq!(parse_utc_offset("0"), Ok(0));
    assert_eq!(parse_utc_offset("14"), Ok(840));
    assert_eq!(parse_utc_offset("-12"), Ok(-720));
    assert!(parse_utc_offset("14.5").is_err());
    assert!(parse_utc_offset("-12.5").is_err());
    assert!(parse_utc_offset("15").is_err());
    assert!(parse_utc_offset("abc").is_err());
    assert!(parse_utc_offset("").is_err());
    assert!(parse_utc_offset("+").is_err());
    assert!(parse_utc_offset("3.1.4").is_err());
}

#[test]
fn string_equality() {
    assert!(str_eq("", ""));
    assert!(str_eq("abc", "abc"));
    assert!(!str_eq("abc", "abd"));
    assert!(!str_eq("abc", "ab"));
    assert!(str_eq("Аджна", "Аджна"));
    assert!(!str_eq("Аджна", "Джи"));
}

#[test]
fn decimal_rendering() {
    assert_eq!(u8_to_string(0), "0");
    assert_eq!(u8_to_string(7), "7");
    assert_eq!(u8_to_string(10), "10");
    assert_eq!(u8_to_string(64), "64");
    assert_eq!(u8_to_string(100), "100");
    assert_eq!(u8_to_string(255), "255");
}

#[test]
fn padded_rendering() {
    assert_eq!(pad2(0), "00");
    assert_eq!(pad2(5), "05");
    assert_eq!(pad2(30), "30");
    assert_eq!(pad4(90), "0090");
    assert_eq!(pad4(1990), "1990");
    assert_eq!(pad4(3), "0003");
}

#[test]
fn substring_search() {
    assert!(contains_sub("right_angle_cross_of_the_sphinx", "right_angle"));
    assert!(contains_sub("abc", ""));
    assert!(contains_sub("abc", "abc"));
    assert!(contains_sub("abcabd", "abd"));
    assert!(!contains_sub("abc", "abcd"));
    assert!(!contains_sub("left_angle_cross", "right_angle"));
}

#[test]
fn language_switch_validates() {
    let mut config = Config::default();
    assert_eq!(config.language, "ru");
    assert!(config.set_language("en").is_ok());
    assert_eq!(config.language, "en");
    assert!(config.set_language("es").is_ok());
    assert_eq!(config.language, "es");
    let err = config.set_language("de");
    assert_eq!(
        err.unwrap_err(),
        "Unsupported language: de. Supported: en, ru, es"
    );
    assert_eq!(config.language, "es");
}
