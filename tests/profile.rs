use rog_core::{FanLevel, RogError};
use std::str::FromStr;

#[test]
fn codes_decode_to_documented_profiles() {
    assert_eq!(FanLevel::from(0u8), FanLevel::Normal);
    assert_eq!(FanLevel::from(1u8), FanLevel::Boost);
    assert_eq!(FanLevel::from(2u8), FanLevel::Silent);
}

#[test]
fn decode_encode_decode_is_stable() {
    for n in 0u8..3 {
        let l = FanLevel::from(n);
        assert_eq!(FanLevel::from(u8::from(l)), l);
        assert_eq!(u8::from(l), n);
    }
}

#[test]
fn unknown_codes_fall_back_to_normal() {
    for n in [3u8, 4, 17, 200, 255] {
        assert_eq!(FanLevel::from_code(n), FanLevel::Normal);
        assert_eq!(FanLevel::from(n), FanLevel::Normal);
    }
}

#[test]
fn codes_of_profiles() {
    assert_eq!(FanLevel::Normal.code(), 0);
    assert_eq!(FanLevel::Boost.code(), 1);
    assert_eq!(FanLevel::Silent.code(), 2);
}

#[test]
fn parse_accepts_any_case() {
    assert_eq!(FanLevel::parse("normal"), Ok(FanLevel::Normal));
    assert_eq!(FanLevel::parse("NORMAL"), Ok(FanLevel::Normal));
    assert_eq!(FanLevel::parse("Boost"), Ok(FanLevel::Boost));
    assert_eq!(FanLevel::parse("bOOST"), Ok(FanLevel::Boost));
    assert_eq!(FanLevel::parse("SiLeNt"), Ok(FanLevel::Silent));
    assert_eq!(FanLevel::from_str("SILENT"), Ok(FanLevel::Silent));
}

#[test]
fn parse_rejects_other_text() {
    for s in ["", "norm", "normals", "fast", " boost", "silent\n", "b00st", "quiet"] {
        assert_eq!(FanLevel::parse(s), Err(RogError::ParseFanLevel));
    }
    assert_eq!(FanLevel::from_str("turbo"), Err(RogError::ParseFanLevel));
}

#[test]
fn names_round_trip_through_parse() {
    for l in [FanLevel::Normal, FanLevel::Boost, FanLevel::Silent] {
        assert_eq!(FanLevel::parse(l.name()), Ok(l));
    }
    assert_eq!(FanLevel::Normal.name(), "normal");
    assert_eq!(FanLevel::Boost.name(), "boost");
    assert_eq!(FanLevel::Silent.name(), "silent");
}

#[test]
fn step_cycles_through_profiles() {
    assert_eq!(FanLevel::Normal.next(), FanLevel::Boost);
    assert_eq!(FanLevel::Boost.next(), FanLevel::Silent);
    assert_eq!(FanLevel::Silent.next(), FanLevel::Normal);
    for l in [FanLevel::Normal, FanLevel::Boost, FanLevel::Silent] {
        assert_eq!(l.next().next().next(), l);
    }
}

#[test]
fn from_str_matches_parse_on_names_and_debug_text() {
    for l in [FanLevel::Normal, FanLevel::Boost, FanLevel::Silent] {
        assert_eq!(FanLevel::from_str(l.name()), Ok(l));
        assert_eq!(FanLevel::from_str(&format!("{:?}", l)), Ok(l));
    }
    for s in ["", " normal", "turbo", "0"] {
        assert_eq!(FanLevel::from_str(s), Err(RogError::ParseFanLevel));
    }
    assert_eq!(FanLevel::from_str("NORMAL"), Ok(FanLevel::Normal));
    assert_eq!(FanLevel::from_str("Boost"), Ok(FanLevel::Boost));
}
