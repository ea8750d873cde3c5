use lib::{ValidationError, ConversionError};

#[test]
fn validation_error_display_empty() {
    assert_eq!(
        ValidationError::Empty.message().as_str(),
        "input string is empty"
    );
}

#[test]
fn validation_error_display_wrong_length() {
    let err = ValidationError::WrongLength {
        expected: 12,
        found: 11,
    };
    assert_eq!(err.message().as_str(), "wrong length: expected 12, found 11");
}

#[test]
fn validation_error_display_invalid_character() {
    let err = ValidationError::InvalidCharacter {
        position: 3,
        found: '/',
    };
    assert_eq!(err.message().as_str(), "invalid character '/' at position 3");
}

#[test]
fn validation_error_display_bad_check_digit() {
    let err = ValidationError::BadCheckDigit {
        expected: '5',
        found: '4',
    };
    assert_eq!(
        err.message().as_str(),
        "check digit mismatch: expected '5', found '4'"
    );
}

#[test]
fn validation_error_display_country_and_structure() {
    assert_eq!(
        ValidationError::InvalidCountryCode.message().as_str(),
        "unrecognised country code"
    );
    assert_eq!(
        ValidationError::Structure {
            rule: "BIC length must be 8 or 11",
        }.message()
        .as_str(),
        "structural rule violated: BIC length must be 8 or 11"
    );
}

#[test]
fn validation_error_display_has_no_trailing_period() {
    for err in [
        ValidationError::Empty,
        ValidationError::WrongLength {
            expected: 1,
            found: 2,
        },
        ValidationError::InvalidCharacter {
            position: 1,
            found: 'x',
        },
        ValidationError::BadCheckDigit {
            expected: '0',
            found: '1',
        },
        ValidationError::InvalidCountryCode,
        ValidationError::Structure { rule: "r" },
    ] {
        assert!(!err.message().as_str().ends_with('.'));
    }
}

#[test]
fn validation_error_is_error_trait() {
    let err = ValidationError::Empty;
    assert!(err.source().is_none());
}

#[test]
fn validation_error_copy_eq() {
    let err = ValidationError::InvalidCountryCode;
    let copy = err;
    assert_eq!(err, copy);
}

#[test]
fn conversion_error_display() {
    assert_eq!(
        ConversionError::UnsupportedCountry.message().as_str(),
        "source country has no defined target for this conversion"
    );
    assert!(
        ConversionError::NotConvertible {
            reason: "leading 00 missing",
        }.message()
        .as_str()
        .contains("leading 00 missing")
    );
    assert!(
        ConversionError::Validation(ValidationError::Empty).message()
            .as_str()
            .contains("empty")
    );
}

#[test]
fn conversion_error_from_validation_and_source() {
    let ve = ValidationError::WrongLength {
        expected: 9,
        found: 8,
    };
    let ce: ConversionError = ve.into();
    assert!(matches!(ce, ConversionError::Validation(_)));
    assert!(ce.source().is_some());

    let no_src = ConversionError::UnsupportedCountry;
    assert!(no_src.source().is_none());
}

#[test]
fn errors_debug() {
    assert!(format!("{:?}", ValidationError::Empty).as_str().contains("Empty"));
    assert!(
        format!("{:?}", ConversionError::UnsupportedCountry)
            .as_str()
            .contains("UnsupportedCountry")
    );
}
