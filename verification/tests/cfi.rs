use lib::{Cfi, ValidationError};
use core::str::FromStr;

/// Well-formed CFI codes used as regression anchors.
const GOLDEN: &[&str] = &[
    "ESVUFR", // Equities
    "DBFUGR", // Debt instruments
    "OCASPS", // Listed options
    "CIOIES", // Collective investment vehicles
];

/// One representative CFI for every ISO 10962 category letter, paired
/// with the expected category name.
const CATEGORY_VECTORS: &[(&str, char, &str)] = &[
    ("EXXXXX", 'E', "Equities"),
    ("CXXXXX", 'C', "Collective investment vehicles"),
    ("DXXXXX", 'D', "Debt instruments"),
    ("RXXXXX", 'R', "Entitlements (rights)"),
    ("OXXXXX", 'O', "Listed options"),
    ("FXXXXX", 'F', "Futures"),
    ("SXXXXX", 'S', "Swaps"),
    ("HXXXXX", 'H', "Non-listed and complex listed options"),
    ("IXXXXX", 'I', "Spot"),
    ("JXXXXX", 'J', "Forwards"),
    ("KXXXXX", 'K', "Strategies"),
    ("LXXXXX", 'L', "Financing"),
    ("TXXXXX", 'T', "Referential instruments"),
    ("MXXXXX", 'M', "Others (miscellaneous)"),
];

#[test]
fn parses_golden_cfis() {
    for &s in GOLDEN {
        let cfi = Cfi::parse(s).unwrap_or_else(|e| panic!("{s} should parse: {e:?}"));
        assert_eq!(cfi.as_str(), s);
    }
}

#[test]
fn cfi_segment_accessors() {
    let cfi = Cfi::parse("ESVUFR").unwrap();
    assert_eq!(cfi.category(), 'E');
    assert_eq!(cfi.category_name(), "Equities");
    assert_eq!(cfi.group(), 'S');
    assert_eq!(cfi.attributes(), "VUFR");
    assert_eq!(cfi.as_bytes(), b"ESVUFR");
    assert_eq!(Cfi::LENGTH, 6);
}

#[test]
fn accepts_all_category_letters() {
    for &(s, letter, name) in CATEGORY_VECTORS {
        let cfi = Cfi::parse(s).unwrap_or_else(|e| panic!("{s} should parse: {e:?}"));
        assert_eq!(cfi.category(), letter);
        assert_eq!(cfi.category_name(), name);
    }
}

#[test]
fn accepts_any_group_and_attributes() {
    // A CFI has no check digit and group/attributes are unvalidated, so
    // any 6-letter code with a valid category letter parses.
    let cfi = Cfi::parse("EZZZZZ").unwrap();
    assert_eq!(cfi.group(), 'Z');
    assert_eq!(cfi.attributes(), "ZZZZ");
}

#[test]
fn cfi_rejects_wrong_length() {
    assert_eq!(
        Cfi::parse("ESVUF"),
        Err(ValidationError::WrongLength {
            expected: 6,
            found: 5,
        })
    );
    assert_eq!(
        Cfi::parse("ESVUFRR"),
        Err(ValidationError::WrongLength {
            expected: 6,
            found: 7,
        })
    );
    assert_eq!(
        Cfi::parse(""),
        Err(ValidationError::WrongLength {
            expected: 6,
            found: 0,
        })
    );
}

#[test]
fn rejects_digit() {
    assert!(matches!(
        Cfi::parse("ESVUF1"),
        Err(ValidationError::InvalidCharacter { position: 6, .. })
    ));
}

#[test]
fn cfi_rejects_lower_case() {
    assert!(matches!(
        Cfi::parse("esvufr"),
        Err(ValidationError::InvalidCharacter { position: 1, .. })
    ));
}

#[test]
fn rejects_unknown_category() {
    assert_eq!(
        Cfi::parse("QSVUFR"),
        Err(ValidationError::Structure {
            rule: "CFI category must be one of E C D R O F S H I J K L T M",
        })
    );
}

#[test]
fn cfi_rejects_non_ascii_without_panic() {
    // A multi-byte character must be rejected cleanly.
    assert!(Cfi::parse("ESVUFÉ").is_err());
    assert!(Cfi::parse("ÉSVUFR").is_err());
}

#[test]
fn cfi_round_trips_through_str() {
    for &s in GOLDEN {
        assert_eq!(Cfi::parse(s).unwrap().as_str(), s);
    }
}

#[test]
fn cfi_from_str_matches_parse() {
    assert_eq!(Cfi::from_str("ESVUFR"), Cfi::parse("ESVUFR"));
    assert!(Cfi::from_str("nonsense").is_err());
}

#[test]
fn cfi_display_renders_identifier() {
    let cfi = Cfi::parse("ESVUFR").unwrap();
    assert_eq!(cfi.as_str(), "ESVUFR");
}

#[test]
fn cfi_as_ref_str() {
    let cfi = Cfi::parse("ESVUFR").unwrap();
    let s: &str = cfi.as_ref();
    assert_eq!(s, "ESVUFR");
}

#[test]
fn cfi_from_bytes_unchecked_round_trip() {
    let cfi = Cfi::from_bytes_unchecked(*b"ESVUFR");
    assert_eq!(cfi, Cfi::parse("ESVUFR").unwrap());
}

#[test]
fn cfi_validate_matches_parse() {
    assert!(Cfi::validate("ESVUFR").is_ok());
    assert!(Cfi::validate("QSVUFR").is_err());
    assert!(Cfi::validate("ESVUF").is_err());
}

#[test]
fn cfi_is_copy_and_eq_and_hashable() {
    let a = Cfi::parse("ESVUFR").unwrap();
    let b = a; // Copy
    assert_eq!(a, b);
    assert_ne!(a, Cfi::parse("DBFUGR").unwrap());
    // Usable as a map key (Eq + Hash) — checked by constructing a slice.
    let keys = [a, b];
    assert_eq!(keys[0], keys[1]);
}
