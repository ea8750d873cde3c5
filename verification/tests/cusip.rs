use lib::checkdigit;
use lib::{Cusip, ValidationError};
use core::str::FromStr;

/// Real, well-known CUSIPs used as regression anchors.
const GOLDEN: &[&str] = &[
    "037833100", // Apple Inc.
    "594918104", // Microsoft Corp.
    "38259P508", // Alphabet Inc.
];

#[test]
fn parses_golden_cusips() {
    for &s in GOLDEN {
        let cusip = Cusip::parse(s).unwrap_or_else(|e| panic!("{s} should parse: {e:?}"));
        assert_eq!(cusip.as_str(), s);
    }
}

#[test]
fn cusip_segment_accessors() {
    let cusip = Cusip::parse("037833100").unwrap();
    assert_eq!(cusip.issuer(), "037833");
    assert_eq!(cusip.issue(), "10");
    assert_eq!(cusip.check_digit(), '0');
    assert_eq!(cusip.as_bytes(), b"037833100");
    assert_eq!(Cusip::LENGTH, 9);
}

#[test]
fn cusip_rejects_bad_check_digit() {
    assert_eq!(
        Cusip::parse("037833101"),
        Err(ValidationError::BadCheckDigit {
            expected: '0',
            found: '1',
        })
    );
}

#[test]
fn cusip_rejects_wrong_length() {
    assert_eq!(
        Cusip::parse("03783310"),
        Err(ValidationError::WrongLength {
            expected: 9,
            found: 8,
        })
    );
    assert_eq!(
        Cusip::parse(""),
        Err(ValidationError::WrongLength {
            expected: 9,
            found: 0,
        })
    );
}

#[test]
fn cusip_rejects_lower_case() {
    assert!(matches!(
        Cusip::parse("a37833100"),
        Err(ValidationError::InvalidCharacter { position: 1, .. })
    ));
}

#[test]
fn cusip_rejects_non_digit_check_position() {
    // Character 9 must be a digit.
    assert!(matches!(
        Cusip::parse("03783310X"),
        Err(ValidationError::InvalidCharacter { position: 9, .. })
    ));
}

#[test]
fn rejects_illegal_body_character() {
    // A slash is outside the body alphabet [A-Z0-9*@#].
    assert!(matches!(
        Cusip::parse("0378/3100"),
        Err(ValidationError::InvalidCharacter { position: 5, .. })
    ));
}

#[test]
fn accepts_special_body_characters() {
    // The body alphabet includes *, @, and #; a valid check digit follows.
    let body = "12345*@#";
    let check = checkdigit::cusip_check_digit(body).unwrap();
    let mut raw = [0u8; 9];
    raw[0..8].copy_from_slice(body.as_bytes());
    raw[8] = check as u8;
    let s = core::str::from_utf8(&raw).unwrap();
    let cusip = Cusip::parse(s).unwrap();
    assert_eq!(cusip.issuer(), "12345*");
    assert_eq!(cusip.issue(), "@#");
}

#[test]
fn cusip_rejects_non_ascii_without_panic() {
    // A multi-byte character must be rejected cleanly.
    assert!(Cusip::parse("03783310é").is_err());
    assert!(Cusip::parse("é37833100").is_err());
}

#[test]
fn is_cins_detects_leading_letter() {
    // A domestic CUSIP starts with a digit and is not a CINS.
    assert!(!Cusip::parse("037833100").unwrap().is_cins());
    // A CINS starts with a letter — build a valid one over a lettered body.
    let body = "U3783310";
    let check = checkdigit::cusip_check_digit(body).unwrap();
    let mut raw = [0u8; 9];
    raw[0..8].copy_from_slice(body.as_bytes());
    raw[8] = check as u8;
    let s = core::str::from_utf8(&raw).unwrap();
    assert!(Cusip::parse(s).unwrap().is_cins());
}

#[test]
fn is_domestic_complements_is_cins() {
    // Every domestic CUSIP starts with a digit.
    for s in ["037833100", "594918104", "38259P508"] {
        let c = Cusip::parse(s).unwrap();
        assert!(c.is_domestic());
        assert!(!c.is_cins());
    }
    // A CINS is not domestic — assemble one and check the inverse.
    let body = "U3783310";
    let check = checkdigit::cusip_check_digit(body).unwrap();
    let mut raw = [0u8; 9];
    raw[0..8].copy_from_slice(body.as_bytes());
    raw[8] = check as u8;
    let cins = Cusip::parse(core::str::from_utf8(&raw).unwrap()).unwrap();
    assert!(!cins.is_domestic());
    assert!(cins.is_cins());
}

#[test]
fn cins_region_maps_leading_letter() {
    // A domestic CUSIP has no CINS region.
    assert_eq!(Cusip::parse("037833100").unwrap().cins_region(), None);
    // 'U' designates the United States in the CINS table.
    let body = "U3783310";
    let check = checkdigit::cusip_check_digit(body).unwrap();
    let mut raw = [0u8; 9];
    raw[0..8].copy_from_slice(body.as_bytes());
    raw[8] = check as u8;
    let s = core::str::from_utf8(&raw).unwrap();
    assert_eq!(
        Cusip::parse(s).unwrap().cins_region(),
        Some("United States")
    );
}

#[test]
fn cins_region_covers_every_assigned_letter() {
    // Each of the 23 assigned CINS letters maps to a region; I, O, and Z
    // are unassigned. Verify every assigned letter explicitly.
    let assigned = [
        (b'A', "Austria"),
        (b'B', "Belgium"),
        (b'C', "Canada"),
        (b'D', "Germany"),
        (b'E', "Spain"),
        (b'F', "France"),
        (b'G', "United Kingdom"),
        (b'H', "Switzerland"),
        (b'J', "Japan"),
        (b'K', "Denmark"),
        (b'L', "Luxembourg"),
        (b'M', "Middle East"),
        (b'N', "Netherlands"),
        (b'P', "South America"),
        (b'Q', "Australia"),
        (b'R', "Norway"),
        (b'S', "South Africa"),
        (b'T', "Italy"),
        (b'U', "United States"),
        (b'V', "Africa-Other"),
        (b'W', "Sweden"),
        (b'X', "Europe-Other"),
        (b'Y', "Asia"),
    ];
    for (letter, region) in assigned {
        let cusip = Cusip::from_bytes_unchecked([
            letter, b'1', b'1', b'1', b'1', b'1', b'1', b'1', b'1',
        ]);
        assert!(cusip.is_cins());
        assert_eq!(cusip.cins_region(), Some(region));
    }
}

#[test]
fn cins_region_none_for_unassigned_letter() {
    // 'I', 'O', and 'Z' are not assigned regions in the CINS table.
    for letter in [b'I', b'O', b'Z'] {
        let cusip = Cusip::from_bytes_unchecked([
            letter, b'1', b'1', b'1', b'1', b'1', b'1', b'1', b'1',
        ]);
        assert!(cusip.is_cins());
        assert_eq!(cusip.cins_region(), None);
    }
}

#[test]
fn cusip_round_trips_through_str() {
    for &s in GOLDEN {
        assert_eq!(Cusip::parse(s).unwrap().as_str(), s);
    }
}

#[test]
fn cusip_from_str_matches_parse() {
    assert_eq!(Cusip::from_str("037833100"), Cusip::parse("037833100"));
    assert!(Cusip::from_str("nonsense").is_err());
}

#[test]
fn cusip_display_renders_identifier() {
    let cusip = Cusip::parse("037833100").unwrap();
    assert_eq!(cusip.as_str(), "037833100");
}

#[test]
fn cusip_as_ref_str() {
    let cusip = Cusip::parse("037833100").unwrap();
    let s: &str = cusip.as_ref();
    assert_eq!(s, "037833100");
}

#[test]
fn cusip_validate_agrees_with_parse() {
    assert!(Cusip::validate("037833100").is_ok());
    assert!(Cusip::validate("037833101").is_err());
}

#[test]
fn cusip_from_bytes_unchecked_round_trip() {
    let cusip = Cusip::from_bytes_unchecked(*b"037833100");
    assert_eq!(cusip, Cusip::parse("037833100").unwrap());
}

#[test]
fn cusip_is_copy_and_eq_and_hashable() {
    let a = Cusip::parse("037833100").unwrap();
    let b = a; // Copy
    assert_eq!(a, b);
    assert_ne!(a, Cusip::parse("594918104").unwrap());
    // Usable as a map key (Eq + Hash) — checked by constructing a slice.
    let keys = [a, b];
    assert_eq!(keys[0], keys[1]);
}
