use std::str::FromStr;
use nvsleepify::mode::Mode;
use nvsleepify::protocol::{Command, Response};
use nvsleepify::text::{decimal_text, parse_u32, trim};

#[test]
fn format_then_parse_gives_each_mode_back() {
    for m in [Mode::Standard, Mode::Integrated, Mode::Optimized] {
        assert_eq!(Mode::parse(m.as_str()), Ok(m));
        assert_eq!(Mode::parse(m.display_name()), Ok(m));
    }
}

#[test]
fn serialized_forms_are_lowercase_tags() {
    assert_eq!(Mode::Standard.as_str(), "standard");
    assert_eq!(Mode::Integrated.as_str(), "integrated");
    assert_eq!(Mode::Optimized.as_str(), "optimized");
    assert_eq!(Mode::Optimized.display_name(), "Optimized");
}

#[test]
fn parse_ignores_letter_case() {
    assert_eq!(Mode::parse("INTEGRATED"), Ok(Mode::Integrated));
    assert_eq!(Mode::parse("OpTiMiZeD"), Ok(Mode::Optimized));
    assert_eq!(Mode::parse("Std"), Ok(Mode::Standard));
}

#[test]
fn parse_accepts_aliases() {
    assert_eq!(Mode::parse("std"), Ok(Mode::Standard));
    assert_eq!(Mode::parse("off"), Ok(Mode::Standard));
    assert_eq!(Mode::parse("int"), Ok(Mode::Integrated));
    assert_eq!(Mode::parse("on"), Ok(Mode::Integrated));
    assert_eq!(Mode::parse("auto"), Ok(Mode::Optimized));
    assert_eq!(Mode::parse("opt"), Ok(Mode::Optimized));
}

#[test]
fn parse_rejects_unknown_words() {
    assert_eq!(Mode::parse("turbo"), Err("Unknown mode: turbo".to_string()));
    assert_eq!(Mode::parse(""), Err("Unknown mode: ".to_string()));
    assert_eq!(Mode::parse(" standard"), Err("Unknown mode:  standard".to_string()));
}

#[test]
fn from_str_goes_through_parse() {
    let m: Mode = "AUTO".parse().unwrap();
    assert_eq!(m, Mode::Optimized);
    assert!("nope".parse::<Mode>().is_err());
}

#[test]
fn default_mode_is_standard() {
    assert_eq!(Mode::default(), Mode::Standard);
}

#[test]
fn persisted_file_reads_back_as_written() {
    for m in [Mode::Standard, Mode::Integrated, Mode::Optimized] {
        assert_eq!(Mode::from_persisted(Some(m.as_str())), m);
    }
    assert_eq!(Mode::from_persisted(Some("integrated\n")), Mode::Integrated);
    assert_eq!(Mode::from_persisted(Some("  optimized \r\n")), Mode::Optimized);
}

#[test]
fn absent_or_garbled_persisted_file_means_standard() {
    assert_eq!(Mode::from_persisted(None), Mode::Standard);
    assert_eq!(Mode::from_persisted(Some("")), Mode::Standard);
    assert_eq!(Mode::from_persisted(Some("garbage")), Mode::Standard);
}

#[test]
fn trim_removes_unicode_white_space_at_both_ends() {
    assert_eq!(trim("  D0\n"), "D0");
    assert_eq!(trim("\t\u{a0}x y\u{3000}"), "x y");
    assert_eq!(trim("   "), "");
    assert_eq!(trim(""), "");
}

#[test]
fn decimal_parsing_follows_u32_from_str() {
    assert_eq!(parse_u32("0"), Some(0));
    assert_eq!(parse_u32("1000"), Some(1000));
    assert_eq!(parse_u32("+42"), Some(42));
    assert_eq!(parse_u32("4294967295"), Some(4294967295));
    assert_eq!(parse_u32("4294967296"), None);
    assert_eq!(parse_u32(""), None);
    assert_eq!(parse_u32("+"), None);
    assert_eq!(parse_u32("12a"), None);
    assert_eq!(parse_u32("-1"), None);
}

#[test]
fn decimal_text_writes_digits() {
    assert_eq!(decimal_text(0), "0");
    assert_eq!(decimal_text(7), "7");
    assert_eq!(decimal_text(4242), "4242");
    assert_eq!(decimal_text(u64::MAX), "18446744073709551615");
}

#[test]
fn command_and_response_carry_their_values() {
    assert_eq!(Command::SetMode(Mode::Integrated), Command::SetMode(Mode::Integrated));
    assert_ne!(Command::Delay(3), Command::Status);
    let r = Response::StatusOutput("x".to_string());
    assert!(matches!(r, Response::StatusOutput(s) if s == "x"));
}

#[test]
fn from_str_reads_aliases_cases_and_rejects_unknown() {
    for m in [Mode::Standard, Mode::Integrated, Mode::Optimized] {
        assert_eq!(Mode::from_str(m.display_name()), Ok(m));
    }
    assert_eq!(Mode::from_str("off"), Ok(Mode::Standard));
    assert_eq!(Mode::from_str("on"), Ok(Mode::Integrated));
    assert_eq!(Mode::from_str("opt"), Ok(Mode::Optimized));
    assert_eq!(Mode::from_str("STANDARD"), Ok(Mode::Standard));
    assert_eq!(Mode::from_str("turbo"), Err("Unknown mode: turbo".to_string()));
}
