use lib::{Bic, ValidationError};
use core::str::FromStr;

/// Real, well-known BICs used as regression anchors.
const GOLDEN: &[&str] = &[
    "DEUTDEFF",    // Deutsche Bank, Frankfurt (8 characters)
    "DEUTDEFF500", // Deutsche Bank, Frankfurt, branch 500 (11 characters)
    "CHASUS33",    // JPMorgan Chase Bank, New York
    "BOFAUS3N",    // Bank of America, New York
    "NDEAFIHH",    // Nordea Bank, Helsinki
];

#[test]
fn parses_golden_bics() {
    for &s in GOLDEN {
        let bic = Bic::parse(s).unwrap_or_else(|e| panic!("{s} should parse: {e:?}"));
        assert_eq!(bic.as_str(), s);
    }
}

#[test]
fn segment_accessors_short() {
    let bic = Bic::parse("DEUTDEFF").unwrap();
    assert_eq!(bic.institution(), "DEUT");
    assert_eq!(bic.country_code(), "DE");
    assert_eq!(bic.location_code(), "FF");
    assert_eq!(bic.branch_code(), None);
    assert!(!bic.has_branch());
    assert_eq!(bic.len(), 8);
    assert_eq!(bic.as_bytes(), b"DEUTDEFF");
}

#[test]
fn segment_accessors_with_branch() {
    let bic = Bic::parse("DEUTDEFF500").unwrap();
    assert_eq!(bic.institution(), "DEUT");
    assert_eq!(bic.country_code(), "DE");
    assert_eq!(bic.location_code(), "FF");
    assert_eq!(bic.branch_code(), Some("500"));
    assert!(bic.has_branch());
    assert_eq!(bic.len(), 11);
    assert_eq!(bic.as_bytes(), b"DEUTDEFF500");
}

#[test]
fn length_constants() {
    assert_eq!(Bic::SHORT_LENGTH, 8);
    assert_eq!(Bic::MAX_LENGTH, 11);
}

#[test]
fn test_bic_flag() {
    let bic = Bic::parse("DEUTDEF0").unwrap();
    assert!(bic.is_test_bic());
    assert!(!bic.is_passive());
}

#[test]
fn passive_participant_flag() {
    let bic = Bic::parse("DEUTDEF1").unwrap();
    assert!(bic.is_passive());
    assert!(!bic.is_test_bic());
}

#[test]
fn live_bic_is_neither_test_nor_passive() {
    let bic = Bic::parse("DEUTDEFF").unwrap();
    assert!(!bic.is_test_bic());
    assert!(!bic.is_passive());
}

#[test]
fn location_status_returns_eighth_character() {
    assert_eq!(Bic::parse("DEUTDEFF").unwrap().location_status(), 'F');
    assert_eq!(Bic::parse("DEUTDEF0").unwrap().location_status(), '0');
    assert_eq!(Bic::parse("DEUTDEF1").unwrap().location_status(), '1');
    // Same character in an 11-character BIC.
    assert_eq!(Bic::parse("DEUTDEFF500").unwrap().location_status(), 'F');
}

#[test]
fn bic_rejects_wrong_length() {
    // Nine characters is neither 8 nor 11.
    assert_eq!(
        Bic::parse("DEUTDEFF5"),
        Err(ValidationError::Structure {
            rule: "BIC length must be 8 or 11",
        })
    );
    // Ten characters likewise.
    assert_eq!(
        Bic::parse("DEUTDEFF50"),
        Err(ValidationError::Structure {
            rule: "BIC length must be 8 or 11",
        })
    );
    // Empty input.
    assert_eq!(
        Bic::parse(""),
        Err(ValidationError::Structure {
            rule: "BIC length must be 8 or 11",
        })
    );
    // Twelve characters.
    assert_eq!(
        Bic::parse("DEUTDEFF5000"),
        Err(ValidationError::Structure {
            rule: "BIC length must be 8 or 11",
        })
    );
}

#[test]
fn rejects_digit_in_institution() {
    assert!(matches!(
        Bic::parse("DEU1DEFF"),
        Err(ValidationError::InvalidCharacter { position: 4, .. })
    ));
}

#[test]
fn rejects_digit_in_country() {
    // A digit anywhere in characters 5–6 must be rejected as a character
    // error, before the country lookup.
    assert!(matches!(
        Bic::parse("DEUT1EFF"),
        Err(ValidationError::InvalidCharacter { position: 5, .. })
    ));
}

#[test]
fn bic_rejects_lower_case() {
    assert!(matches!(
        Bic::parse("deutdeff"),
        Err(ValidationError::InvalidCharacter { position: 1, .. })
    ));
}

#[test]
fn bic_rejects_unknown_country_code() {
    // ZZ is two letters but not an assigned ISO 3166-1 code.
    assert_eq!(
        Bic::parse("DEUTZZFF"),
        Err(ValidationError::InvalidCountryCode)
    );
}

#[test]
fn rejects_substitute_prefix_as_country() {
    // XS is an ISIN substitute prefix, not an ISO country, so it is not a
    // valid BIC country code.
    assert_eq!(
        Bic::parse("DEUTXS33"),
        Err(ValidationError::InvalidCountryCode)
    );
}

#[test]
fn rejects_bad_character_in_branch() {
    assert!(matches!(
        Bic::parse("DEUTDEFF50/"),
        Err(ValidationError::InvalidCharacter { position: 11, .. })
    ));
}

#[test]
fn bic_rejects_non_ascii_without_panic() {
    // A multi-byte character must be rejected cleanly.
    assert!(Bic::parse("DEUTDEFé").is_err());
    assert!(Bic::parse("ÉEUTDEFF").is_err());
    assert!(Bic::parse("DEUTDEFF50é").is_err());
}

#[test]
fn bic_round_trips_through_str() {
    for &s in GOLDEN {
        assert_eq!(Bic::parse(s).unwrap().as_str(), s);
    }
}

#[test]
fn bic_from_str_matches_parse() {
    assert_eq!(Bic::from_str("DEUTDEFF"), Bic::parse("DEUTDEFF"));
    assert_eq!(Bic::from_str("DEUTDEFF500"), Bic::parse("DEUTDEFF500"));
    assert!(Bic::from_str("nonsense!").is_err());
}

#[test]
fn bic_display_renders_identifier() {
    assert_eq!(
        Bic::parse("DEUTDEFF").unwrap().as_str(),
        "DEUTDEFF"
    );
    assert_eq!(
        Bic::parse("DEUTDEFF500").unwrap().as_str(),
        "DEUTDEFF500"
    );
}

#[test]
fn bic_as_ref_str() {
    let bic = Bic::parse("CHASUS33").unwrap();
    let s: &str = bic.as_ref();
    assert_eq!(s, "CHASUS33");
}

#[test]
fn bic_validate_agrees_with_parse() {
    assert!(Bic::validate("BOFAUS3N").is_ok());
    assert!(Bic::validate("BOFAUS3").is_err());
}

#[test]
fn bic_from_bytes_unchecked_round_trip() {
    let short = Bic::from_bytes_unchecked(*b"DEUTDEFF\0\0\0", 8);
    assert_eq!(short, Bic::parse("DEUTDEFF").unwrap());
    let long = Bic::from_bytes_unchecked(*b"DEUTDEFF500", 11);
    assert_eq!(long, Bic::parse("DEUTDEFF500").unwrap());
}

#[test]
fn unused_tail_bytes_are_zeroed() {
    // The tail of an 8-character BIC must be zero, so two equal 8-char
    // BICs compare equal regardless of how they were built.
    let parsed = Bic::parse("DEUTDEFF").unwrap();
    let built = Bic::from_bytes_unchecked(*b"DEUTDEFF\0\0\0", 8);
    assert_eq!(parsed, built);
}

#[test]
fn bic_is_copy_and_eq_and_hashable() {
    let a = Bic::parse("DEUTDEFF").unwrap();
    let b = a; // Copy
    assert_eq!(a, b);
    assert_ne!(a, Bic::parse("CHASUS33").unwrap());
    // An 8-char BIC and the 11-char BIC sharing its prefix differ.
    assert_ne!(a, Bic::parse("DEUTDEFF500").unwrap());
    // Usable as a map key (Eq + Hash) — checked by constructing a slice.
    let keys = [a, b];
    assert_eq!(keys[0], keys[1]);
}
