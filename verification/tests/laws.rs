//! The library's laws on concrete values, and the inputs on which a law
//! stated more broadly would fail.
use lib::checkdigit::{
    cusip_check_digit, figi_check_digit, isin_check_digit, lei_check_digits, sedol_check_digit,
};
use lib::convert::{
    build_isin, cusip_to_isin, isin_to_cusip, isin_to_sedol, isin_to_valor, sedol_to_isin,
    valor_to_isin,
};
use lib::detect::{IdentifierKind, SecurityId};
use lib::errors::{ConversionError, ValidationError};
use lib::text::{push_char, push_decimal};
use lib::{Cusip, Figi, Isin, Lei, Sedol, Valor};

/// The ISO 7064 expansion of `s` reduced modulo 97.
fn mod97_of_expansion(s: &str) -> u32 {
    let mut acc: u32 = 0;
    for c in s.chars() {
        if c.is_ascii_digit() {
            acc = (acc * 10 + (c as u32 - '0' as u32)) % 97;
        } else {
            acc = (acc * 100 + (c as u32 - 'A' as u32 + 10)) % 97;
        }
    }
    acc
}

#[test]
fn valid_lei_expansion_is_one_mod_97() {
    for s in ["5493001KJTIIGC8Y1R12", "549300DTUYXVMJXZNY75"] {
        assert!(Lei::parse(s).is_ok());
        assert_eq!(mod97_of_expansion(s), 1);
    }
}

#[test]
fn lei_body_plus_check_digits_parses() {
    for body in ["5493001KJTIIGC8Y1R", "549300DTUYXVMJXZNY", "ABCD00XYZ123456789"] {
        let digits = lei_check_digits(body).unwrap();
        let full = format!("{body}{}{}", digits[0], digits[1]);
        let lei = Lei::parse(&full).unwrap();
        assert_eq!(lei.as_str(), full);
        assert_eq!(mod97_of_expansion(&full), 1);
    }
}

#[test]
fn lei_with_congruent_but_different_check_digits_is_rejected() {
    // When the computed check value is 02, the digits 99 are congruent to it
    // modulo 97: the expansion is still 1 mod 97, yet parse rejects them.
    let mut found = false;
    for n in 0..100_000u32 {
        let body = format!("ABCD00{n:012}");
        let digits = lei_check_digits(&body).unwrap();
        if digits == ['0', '2'] {
            let forged = format!("{body}99");
            assert_eq!(mod97_of_expansion(&forged), 1);
            assert_eq!(
                Lei::parse(&forged),
                Err(ValidationError::BadCheckDigit { expected: '0', found: '9' })
            );
            found = true;
            break;
        }
    }
    assert!(found);
}

#[test]
fn figi_body_plus_check_parses() {
    for body in ["BBG000BLNNH", "BBG000B9XRY", "KKG1234567B"] {
        let check = figi_check_digit(body).unwrap();
        let full = format!("{body}{check}");
        assert_eq!(Figi::parse(&full).unwrap().check_digit(), check);
    }
}

#[test]
fn check_digit_functions_agree_with_parsers() {
    assert_eq!(isin_check_digit("US037833100"), Ok('5'));
    assert!(Isin::parse("US0378331005").is_ok());
    assert_eq!(cusip_check_digit("38259P50"), Ok('8'));
    assert!(Cusip::parse("38259P508").is_ok());
    assert_eq!(sedol_check_digit("B0WNLY"), Ok('7'));
    assert!(Sedol::parse("B0WNLY7").is_ok());
}

#[test]
fn cusip_with_special_character_does_not_wrap_into_isin() {
    // '*', '@' and '#' are CUSIP characters but not ISIN characters, so the
    // CUSIP-to-ISIN round trip holds only for CUSIPs of digits and letters.
    let body = "12345*78";
    let check = cusip_check_digit(body).unwrap();
    let cusip = Cusip::parse(&format!("{body}{check}")).unwrap();
    assert_eq!(
        cusip_to_isin(&cusip, "US"),
        Err(ConversionError::Validation(ValidationError::InvalidCharacter {
            position: 8,
            found: '*',
        }))
    );
}

#[test]
fn valor_with_leading_zeros_comes_back_without_them() {
    // The VALOR round trip holds for VALORs without a superfluous leading
    // zero; "000123" comes back as "123".
    let valor = Valor::parse("000123").unwrap();
    let isin = valor_to_isin(&valor, "CH").unwrap();
    assert_eq!(isin.nsin(), "000000123");
    assert_eq!(isin_to_valor(&isin).unwrap().as_str(), "123");
    // The single digit "0" round-trips.
    let zero = Valor::parse("0").unwrap();
    let isin = valor_to_isin(&zero, "LI").unwrap();
    assert_eq!(isin_to_valor(&isin).unwrap(), zero);
}

#[test]
fn isin_round_trips_through_each_national_number() {
    let us = Isin::parse("US0378331005").unwrap();
    let cusip = isin_to_cusip(&us).unwrap();
    assert_eq!(cusip_to_isin(&cusip, us.country_code()).unwrap(), us);
    let gb = Isin::parse("GB0002634946").unwrap();
    let sedol = isin_to_sedol(&gb).unwrap();
    assert_eq!(sedol_to_isin(&sedol, gb.country_code()).unwrap(), gb);
    let ch = Isin::parse("CH0012138530").unwrap();
    let valor = isin_to_valor(&ch).unwrap();
    assert_eq!(valor_to_isin(&valor, ch.country_code()).unwrap(), ch);
}

#[test]
fn built_isin_always_parses() {
    for (country, nsin) in [("US", "1"), ("XS", "174878390"), ("EU", "ABC"), ("CA", "00000000Z")] {
        let isin = build_isin(country, nsin).unwrap();
        assert_eq!(Isin::parse(isin.as_str()).unwrap(), isin);
    }
}

#[test]
fn figi_that_is_also_a_valid_isin_is_detected_as_an_isin() {
    // A FIGI with an ISO-country provider prefix whose ISIN check digit
    // happens to coincide is a valid ISIN too; detection reports the ISIN.
    let s = "BBG000BLNBH2";
    assert!(Figi::parse(s).is_ok());
    assert!(Isin::parse(s).is_ok());
    assert_eq!(SecurityId::detect(s).unwrap().kind(), IdentifierKind::Isin);
}

#[test]
fn detection_never_reports_structural_only_kinds() {
    for s in ["ESVUFR", "A1EWWW", "1213853", "ZZZZ"] {
        let kind = SecurityId::detect(s).map(|id| id.kind());
        assert!(!matches!(
            kind,
            Some(IdentifierKind::Cfi | IdentifierKind::Wkn | IdentifierKind::Valor | IdentifierKind::Mic)
        ));
    }
    // A MIC is reported only when the registry snapshot holds it.
    assert_eq!(SecurityId::detect("XLON").map(|id| id.kind()), Some(IdentifierKind::Mic));
}

#[test]
fn messages_format_numbers_in_decimal() {
    let err = ValidationError::WrongLength { expected: 0, found: 1_234_567 };
    assert_eq!(err.message(), "wrong length: expected 0, found 1234567");
    let err = ValidationError::InvalidCharacter { position: 10, found: 'é' };
    assert_eq!(err.message(), "invalid character 'é' at position 10");
    let err = ConversionError::Validation(ValidationError::BadCheckDigit { expected: '5', found: '4' });
    assert_eq!(
        err.message(),
        "converted identifier is invalid: check digit mismatch: expected '5', found '4'"
    );
}

#[test]
fn string_helpers_append() {
    let mut s = String::from("n=");
    push_decimal(&mut s, 907);
    push_char(&mut s, '!');
    assert_eq!(s, "n=907!");
    let mut z = String::new();
    push_decimal(&mut z, 0);
    assert_eq!(z, "0");
}

#[test]
fn parsed_check_digits_are_the_computed_ones() {
    for s in ["5493001KJTIIGC8Y1R12", "549300DTUYXVMJXZNY75"] {
        let lei = Lei::parse(s).unwrap();
        let digits = lei_check_digits(&s[0..18]).unwrap();
        assert_eq!(lei.check_digits(), format!("{}{}", digits[0], digits[1]));
    }
    for s in ["US0378331005", "GB0002634946", "DE000BAY0017"] {
        let isin = Isin::parse(s).unwrap();
        assert_eq!(isin.check_digit(), isin_check_digit(&s[0..11]).unwrap());
    }
}
