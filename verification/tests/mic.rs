use lib::{Mic, ValidationError};
use core::str::FromStr;

/// Real, registered MICs used as regression anchors.
const GOLDEN: &[&str] = &[
    "XNAS", // Nasdaq, New York
    "XLON", // London Stock Exchange
    "XPAR", // Euronext Paris
    "XNYS", // New York Stock Exchange
];

/// A structurally valid MIC that is not in the ISO 10383 registry.
const UNREGISTERED: &str = "ZZZZ";

#[test]
fn parses_golden_mics() {
    for &s in GOLDEN {
        let mic = Mic::parse(s).unwrap_or_else(|e| panic!("{s} should parse: {e:?}"));
        assert_eq!(mic.as_str(), s);
    }
}

#[test]
fn parses_unregistered_but_well_formed() {
    let mic = Mic::parse(UNREGISTERED).unwrap();
    assert_eq!(mic.as_str(), "ZZZZ");
}

#[test]
fn mic_segment_accessors() {
    let mic = Mic::parse("XNAS").unwrap();
    assert_eq!(mic.prefix(), 'X');
    assert_eq!(mic.suffix(), "NAS");
    assert_eq!(mic.as_bytes(), b"XNAS");
    assert_eq!(Mic::LENGTH, 4);
}

#[test]
fn accepts_digits_in_suffix() {
    // Positions 2-4 admit digits; only position 1 must be a letter.
    let mic = Mic::parse("A2XX").unwrap();
    assert_eq!(mic.suffix(), "2XX");
}

#[test]
fn mic_rejects_wrong_length() {
    assert_eq!(
        Mic::parse("XNA"),
        Err(ValidationError::WrongLength {
            expected: 4,
            found: 3,
        })
    );
    assert_eq!(
        Mic::parse("XNASX"),
        Err(ValidationError::WrongLength {
            expected: 4,
            found: 5,
        })
    );
    assert_eq!(
        Mic::parse(""),
        Err(ValidationError::WrongLength {
            expected: 4,
            found: 0,
        })
    );
}

#[test]
fn rejects_digit_in_leading_position() {
    assert_eq!(
        Mic::parse("1NAS"),
        Err(ValidationError::InvalidCharacter {
            position: 1,
            found: '1',
        })
    );
}

#[test]
fn mic_rejects_lower_case() {
    assert!(matches!(
        Mic::parse("xnas"),
        Err(ValidationError::InvalidCharacter { position: 1, .. })
    ));
    assert!(matches!(
        Mic::parse("Xnas"),
        Err(ValidationError::InvalidCharacter { position: 2, .. })
    ));
}

#[test]
fn rejects_punctuation_in_suffix() {
    assert!(matches!(
        Mic::parse("XN-S"),
        Err(ValidationError::InvalidCharacter { position: 3, .. })
    ));
}

#[test]
fn mic_rejects_non_ascii_without_panic() {
    // A multi-byte character must be rejected cleanly.
    assert!(Mic::parse("XNAé").is_err());
    assert!(Mic::parse("ÉNAS").is_err());
}

#[test]
fn mic_validate_agrees_with_parse() {
    assert!(Mic::validate("XPAR").is_ok());
    assert!(Mic::validate("xpar").is_err());
}

#[test]
fn mic_round_trips_through_str() {
    for &s in GOLDEN {
        assert_eq!(Mic::parse(s).unwrap().as_str(), s);
    }
}

#[test]
fn mic_from_str_matches_parse() {
    assert_eq!(Mic::from_str("XNAS"), Mic::parse("XNAS"));
    assert!(Mic::from_str("nonsense").is_err());
}

#[test]
fn mic_display_renders_identifier() {
    let mic = Mic::parse("XNAS").unwrap();
    assert_eq!(mic.as_str(), "XNAS");
}

#[test]
fn mic_as_ref_str() {
    let mic = Mic::parse("XNAS").unwrap();
    let s: &str = mic.as_ref();
    assert_eq!(s, "XNAS");
}

#[test]
fn mic_from_bytes_unchecked_round_trip() {
    let mic = Mic::from_bytes_unchecked(*b"XNAS");
    assert_eq!(mic, Mic::parse("XNAS").unwrap());
}

#[test]
fn mic_is_copy_and_eq_and_hashable() {
    let a = Mic::parse("XNAS").unwrap();
    let b = a; // Copy
    assert_eq!(a, b);
    assert_ne!(a, Mic::parse("XLON").unwrap());
    // Usable as a map key (Eq + Hash) — checked by constructing a slice.
    let keys = [a, b];
    assert_eq!(keys[0], keys[1]);
}

#[test]
fn lookup_finds_golden_mics() {
    for &s in GOLDEN {
        let mic = Mic::parse(s).unwrap();
        let entry = mic
            .lookup()
            .unwrap_or_else(|| panic!("{s} should be registered"));
        assert_eq!(entry.mic, s);
    }
}

#[test]
fn lookup_misses_unregistered() {
    assert!(Mic::parse(UNREGISTERED).unwrap().lookup().is_none());
}

#[test]
fn is_registered_reflects_membership() {
    for &s in GOLDEN {
        assert!(Mic::parse(s).unwrap().is_registered());
    }
    assert!(!Mic::parse(UNREGISTERED).unwrap().is_registered());
}

#[test]
fn parse_registered_accepts_golden_mics() {
    for &s in GOLDEN {
        let mic = Mic::parse_registered(s)
            .unwrap_or_else(|e| panic!("{s} should parse as registered: {e:?}"));
        assert_eq!(mic.as_str(), s);
    }
}

#[test]
fn parse_registered_rejects_unregistered() {
    assert_eq!(
        Mic::parse_registered(UNREGISTERED),
        Err(ValidationError::Structure {
            rule: "MIC is not in the ISO 10383 registry",
        })
    );
}

#[test]
fn parse_registered_rejects_structural_errors_first() {
    // A structurally invalid input fails before the registry check.
    assert_eq!(
        Mic::parse_registered("XNA"),
        Err(ValidationError::WrongLength {
            expected: 4,
            found: 3,
        })
    );
    assert!(matches!(
        Mic::parse_registered("xnas"),
        Err(ValidationError::InvalidCharacter { position: 1, .. })
    ));
}

#[test]
fn segment_mics_name_their_operating_mic() {
    let entry = Mic::parse("XNGS").unwrap().lookup().unwrap();
    assert_eq!(entry.operating_mic, "XNAS");
    assert!(!entry.is_operating);
    assert_eq!(entry.country, "US");
}
