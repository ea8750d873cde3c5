//! End-to-end scenarios across every identifier kind: golden vectors,
//! documented invalid inputs, round trips, conversions and detection.
use lib::checkdigit;
use lib::convert::{
    build_isin, cusip_to_isin, isin_to_cusip, isin_to_sedol, isin_to_valor, sedol_to_isin,
    valor_to_isin,
};
use lib::detect::{IdentifierKind, SecurityId};
use lib::errors::{ConversionError, ValidationError};
use lib::mic_registry::{self, SNAPSHOT_DATE};
use lib::{Bic, Cfi, Cusip, Figi, Isin, Lei, Mic, MicStatus, Sedol, Valor, Wkn};


#[test]
fn isin_real_instruments() {
    for &s in &[
        "US0378331005", // Apple Inc.
        "US5949181045", // Microsoft Corp.
        "GB0002634946", // BAE Systems plc
        "DE000BAY0017", // Bayer AG
        "FR0000131104", // BNP Paribas
        "NL0011794037", // ABN AMRO
    ] {
        let isin = Isin::parse(s).unwrap_or_else(|e| panic!("{s} should parse: {e:?}"));
        assert_eq!(isin.as_str(), s);
    }
}

#[test]
fn isin_segments_for_apple() {
    let isin = Isin::parse("US0378331005").unwrap();
    assert_eq!(isin.country_code(), "US");
    assert_eq!(isin.nsin(), "037833100");
    assert_eq!(isin.check_digit(), '5');
}

#[test]
fn cusip_real_instruments() {
    for &s in &["037833100", "594918104", "38259P508"] {
        let cusip = Cusip::parse(s).unwrap_or_else(|e| panic!("{s} should parse: {e:?}"));
        assert_eq!(cusip.as_str(), s);
    }
    let apple = Cusip::parse("037833100").unwrap();
    assert_eq!(apple.issuer(), "037833");
    assert_eq!(apple.issue(), "10");
    assert!(!apple.is_cins());
}

#[test]
fn sedol_real_instruments() {
    let bae = Sedol::parse("0263494").unwrap();
    assert_eq!(bae.body(), "026349");
    assert!(bae.is_legacy_numeric());
    // A post-2004 alphanumeric SEDOL.
    let modern = Sedol::parse("B0WNLY7").unwrap();
    assert!(!modern.is_legacy_numeric());
}

#[test]
fn lei_real_instruments() {
    let bloomberg = Lei::parse("5493001KJTIIGC8Y1R12").unwrap();
    assert_eq!(bloomberg.lou_prefix(), "5493");
    assert_eq!(bloomberg.entity_id(), "1KJTIIGC8Y1R");
    assert_eq!(bloomberg.check_digits(), "12");
    assert!(Lei::parse("549300DTUYXVMJXZNY75").is_ok());
}

#[test]
fn figi_real_instruments() {
    for &s in &["BBG000BLNNH6", "BBG000B9XRY4", "BBG000BVPV84"] {
        let figi = Figi::parse(s).unwrap_or_else(|e| panic!("{s} should parse: {e:?}"));
        assert_eq!(figi.as_str(), s);
        assert!(figi.is_bloomberg());
    }
    let ibm = Figi::parse("BBG000BLNNH6").unwrap();
    assert_eq!(ibm.provider_prefix(), "BBG");
    assert_eq!(ibm.body(), "000BLNNH");
}

#[test]
fn bic_real_institutions() {
    for &s in &[
        "DEUTDEFF",
        "DEUTDEFF500",
        "CHASUS33",
        "BOFAUS3N",
        "NDEAFIHH",
    ] {
        let bic = Bic::parse(s).unwrap_or_else(|e| panic!("{s} should parse: {e:?}"));
        assert_eq!(bic.as_str(), s);
    }
    let db = Bic::parse("DEUTDEFF500").unwrap();
    assert_eq!(db.institution(), "DEUT");
    assert_eq!(db.country_code(), "DE");
    assert_eq!(db.branch_code(), Some("500"));
    assert!(db.has_branch());
}

#[test]
fn mic_real_markets() {
    for &s in &["XNAS", "XLON", "XPAR", "XNYS"] {
        let mic = Mic::parse(s).unwrap_or_else(|e| panic!("{s} should parse: {e:?}"));
        assert_eq!(mic.as_str(), s);
    }
    assert_eq!(Mic::parse("XNAS").unwrap().suffix(), "NAS");
}

#[test]
fn cfi_category_letters() {
    let equity = Cfi::parse("ESVUFR").unwrap();
    assert_eq!(equity.category(), 'E');
    assert_eq!(equity.category_name(), "Equities");
    let debt = Cfi::parse("DBFUGR").unwrap();
    assert_eq!(debt.category_name(), "Debt instruments");
}

#[test]
fn wkn_real_instruments() {
    assert!(Wkn::parse("766403").unwrap().is_numeric()); // Volkswagen AG
    assert!(Wkn::parse("519000").unwrap().is_numeric()); // BMW AG
    assert!(!Wkn::parse("A1EWWW").unwrap().is_numeric()); // Adidas AG
}

#[test]
fn valor_real_instruments() {
    let valor = Valor::parse("1213853").unwrap();
    assert_eq!(valor.len(), 7);
    assert_eq!(valor.as_u64(), 1_213_853);
    assert!(Valor::parse("908440").is_ok());
    assert!(Valor::parse("24476758").is_ok());
}

#[test]
fn checkdigit_worked_examples() {
    // Hand-computed against doc/ALGORITHMS.md.
    assert_eq!(checkdigit::luhn_checksum("7992739871").unwrap(), 3);
    assert_eq!(checkdigit::isin_check_digit("US037833100").unwrap(), '5');
    assert_eq!(checkdigit::cusip_check_digit("03783310").unwrap(), '0');
    assert_eq!(checkdigit::sedol_check_digit("026349").unwrap(), '4');
    assert_eq!(checkdigit::figi_check_digit("BBG000BLNNH").unwrap(), '6');
    assert_eq!(
        checkdigit::lei_check_digits("5493001KJTIIGC8Y1R").unwrap(),
        ['1', '2'],
    );
}

// ─── Invalid vectors ─────────────────────────────────────────────────────────


#[test]
fn isin_wrong_check_digit() {
    assert_eq!(
        Isin::parse("US0378331004"),
        Err(ValidationError::BadCheckDigit {
            expected: '5',
            found: '4',
        }),
    );
}

#[test]
fn isin_wrong_length() {
    assert_eq!(
        Isin::parse("US037833100"),
        Err(ValidationError::WrongLength {
            expected: 12,
            found: 11,
        }),
    );
}

#[test]
fn isin_unknown_country_code() {
    assert_eq!(
        Isin::parse("ZZ0378331005"),
        Err(ValidationError::InvalidCountryCode),
    );
}

#[test]
fn isin_lower_case_is_an_invalid_character() {
    assert!(matches!(
        Isin::parse("us0378331005"),
        Err(ValidationError::InvalidCharacter { position: 1, .. }),
    ));
}

#[test]
fn cusip_wrong_check_digit() {
    assert_eq!(
        Cusip::parse("037833101"),
        Err(ValidationError::BadCheckDigit {
            expected: '0',
            found: '1',
        }),
    );
}

#[test]
fn cusip_illegal_body_character() {
    assert!(matches!(
        Cusip::parse("0378/3100"),
        Err(ValidationError::InvalidCharacter { position: 5, .. }),
    ));
}

#[test]
fn sedol_wrong_check_digit() {
    assert_eq!(
        Sedol::parse("0263495"),
        Err(ValidationError::BadCheckDigit {
            expected: '4',
            found: '5',
        }),
    );
}

#[test]
fn sedol_vowel_in_body_is_rejected() {
    assert_eq!(
        Sedol::parse("B0WNLA7"),
        Err(ValidationError::InvalidCharacter {
            position: 6,
            found: 'A',
        }),
    );
}

#[test]
fn lei_wrong_check_digit() {
    assert_eq!(
        Lei::parse("5493001KJTIIGC8Y1R13"),
        Err(ValidationError::BadCheckDigit {
            expected: '2',
            found: '3',
        }),
    );
}

#[test]
fn lei_reserved_field_must_be_zero_zero() {
    assert_eq!(
        Lei::parse("5493011KJTIIGC8Y1R12"),
        Err(ValidationError::Structure {
            rule: "LEI positions 5-6 must be 00",
        }),
    );
}

#[test]
fn figi_wrong_check_digit() {
    assert_eq!(
        Figi::parse("BBG000BLNNH5"),
        Err(ValidationError::BadCheckDigit {
            expected: '6',
            found: '5',
        }),
    );
}

#[test]
fn figi_forbidden_prefix_is_rejected() {
    assert_eq!(
        Figi::parse("BSG000BLNNH6"),
        Err(ValidationError::Structure {
            rule: "FIGI provider prefix must not be an ISIN country code",
        }),
    );
}

#[test]
fn bic_wrong_length_is_a_structural_error() {
    assert_eq!(
        Bic::parse("DEUTDEFF5"),
        Err(ValidationError::Structure {
            rule: "BIC length must be 8 or 11",
        }),
    );
}

#[test]
fn bic_unknown_country_code() {
    assert_eq!(
        Bic::parse("DEUTZZFF"),
        Err(ValidationError::InvalidCountryCode),
    );
}

#[test]
fn mic_wrong_length() {
    assert_eq!(
        Mic::parse("XNA"),
        Err(ValidationError::WrongLength {
            expected: 4,
            found: 3,
        }),
    );
}

#[test]
fn mic_leading_digit_is_rejected() {
    assert_eq!(
        Mic::parse("1NAS"),
        Err(ValidationError::InvalidCharacter {
            position: 1,
            found: '1',
        }),
    );
}

#[test]
fn cfi_unknown_category_letter() {
    assert_eq!(
        Cfi::parse("QSVUFR"),
        Err(ValidationError::Structure {
            rule: "CFI category must be one of E C D R O F S H I J K L T M",
        }),
    );
}

#[test]
fn wkn_letters_i_and_o_are_rejected() {
    assert_eq!(
        Wkn::parse("A1IWWW"),
        Err(ValidationError::InvalidCharacter {
            position: 3,
            found: 'I',
        }),
    );
    assert_eq!(
        Wkn::parse("A1OWWW"),
        Err(ValidationError::InvalidCharacter {
            position: 3,
            found: 'O',
        }),
    );
}

#[test]
fn valor_length_bounds_are_structural() {
    assert_eq!(
        Valor::parse(""),
        Err(ValidationError::Structure {
            rule: "VALOR must be 1 to 9 digits",
        }),
    );
    assert_eq!(
        Valor::parse("1234567890"),
        Err(ValidationError::Structure {
            rule: "VALOR must be 1 to 9 digits",
        }),
    );
}

#[test]
fn valor_non_digit_is_rejected() {
    assert_eq!(
        Valor::parse("1213853A"),
        Err(ValidationError::InvalidCharacter {
            position: 8,
            found: 'A',
        }),
    );
}

#[test]
fn non_ascii_input_never_panics_any_parser() {
    // A multi-byte character must be rejected cleanly by every parser.
    assert!(Isin::parse("US037833100é").is_err());
    assert!(Cusip::parse("03783310é").is_err());
    assert!(Sedol::parse("026349é").is_err());
    assert!(Lei::parse("5493001KJTIIGC8Y1Ré2").is_err());
    assert!(Figi::parse("BBG000BLNNHé").is_err());
    assert!(Bic::parse("DEUTDEFé").is_err());
    assert!(Mic::parse("XNAé").is_err());
    assert!(Cfi::parse("ESVUFÉ").is_err());
    assert!(Wkn::parse("A1EWWé").is_err());
    assert!(Valor::parse("12345é").is_err());
}

// ─── Round-trips ─────────────────────────────────────────────────────────────


/// `parse(x).as_str() == x` must hold for every kind and every input.
#[test]
fn parse_then_as_str_is_identity() {
    for &s in &["US0378331005", "GB0002634946", "DE000BAY0017"] {
        assert_eq!(Isin::parse(s).unwrap().as_str(), s);
    }
    for &s in &["037833100", "594918104", "38259P508"] {
        assert_eq!(Cusip::parse(s).unwrap().as_str(), s);
    }
    for &s in &["0263494", "0540528", "B0WNLY7"] {
        assert_eq!(Sedol::parse(s).unwrap().as_str(), s);
    }
    for &s in &["5493001KJTIIGC8Y1R12", "549300DTUYXVMJXZNY75"] {
        assert_eq!(Lei::parse(s).unwrap().as_str(), s);
    }
    for &s in &["BBG000BLNNH6", "BBG000B9XRY4", "BBG000BVPV84"] {
        assert_eq!(Figi::parse(s).unwrap().as_str(), s);
    }
    for &s in &["DEUTDEFF", "DEUTDEFF500", "CHASUS33"] {
        assert_eq!(Bic::parse(s).unwrap().as_str(), s);
    }
    for &s in &["XNAS", "XLON", "XPAR"] {
        assert_eq!(Mic::parse(s).unwrap().as_str(), s);
    }
    for &s in &["ESVUFR", "DBFUGR", "OCASPS"] {
        assert_eq!(Cfi::parse(s).unwrap().as_str(), s);
    }
    for &s in &["766403", "519000", "A1EWWW"] {
        assert_eq!(Wkn::parse(s).unwrap().as_str(), s);
    }
    for &s in &["1213853", "908440", "24476758", "7", "123456789"] {
        assert_eq!(Valor::parse(s).unwrap().as_str(), s);
    }
}

#[test]
fn from_bytes_unchecked_matches_parse() {
    assert_eq!(
        Isin::from_bytes_unchecked(*b"US0378331005"),
        Isin::parse("US0378331005").unwrap(),
    );
    assert_eq!(
        Cusip::from_bytes_unchecked(*b"037833100"),
        Cusip::parse("037833100").unwrap(),
    );
    assert_eq!(
        Bic::from_bytes_unchecked(*b"DEUTDEFF\0\0\0", 8),
        Bic::parse("DEUTDEFF").unwrap(),
    );
    assert_eq!(
        Valor::from_bytes_unchecked(*b"908440\0\0\0", 6),
        Valor::parse("908440").unwrap(),
    );
}

// ─── Conversions ─────────────────────────────────────────────────────────────


#[test]
fn isin_cusip_round_trip() {
    for &s in &["US0378331005", "US5949181045"] {
        let isin = Isin::parse(s).unwrap();
        let cusip = isin_to_cusip(&isin).unwrap();
        let back = cusip_to_isin(&cusip, isin.country_code()).unwrap();
        assert_eq!(back, isin);
    }
}

#[test]
fn integration_cusip_isin_round_trip() {
    for &s in &["037833100", "594918104", "38259P508"] {
        let cusip = Cusip::parse(s).unwrap();
        let isin = cusip_to_isin(&cusip, "US").unwrap();
        assert_eq!(isin_to_cusip(&isin).unwrap(), cusip);
    }
}

#[test]
fn isin_sedol_round_trip() {
    let isin = Isin::parse("GB0002634946").unwrap();
    let sedol = isin_to_sedol(&isin).unwrap();
    assert_eq!(sedol.as_str(), "0263494");
    assert_eq!(sedol_to_isin(&sedol, isin.country_code()).unwrap(), isin);
}

#[test]
fn integration_sedol_isin_round_trip() {
    for &s in &["0263494", "0540528", "B0WNLY7"] {
        let sedol = Sedol::parse(s).unwrap();
        let isin = sedol_to_isin(&sedol, "GB").unwrap();
        assert_eq!(isin_to_sedol(&isin).unwrap(), sedol);
    }
}

#[test]
fn isin_valor_round_trip() {
    let isin = Isin::parse("CH0012138530").unwrap();
    let valor = isin_to_valor(&isin).unwrap();
    assert_eq!(valor.as_str(), "1213853");
    assert_eq!(valor_to_isin(&valor, isin.country_code()).unwrap(), isin);
}

#[test]
fn integration_valor_isin_round_trip() {
    for &v in &["1213853", "908440", "24476758", "123456789", "7"] {
        let valor = Valor::parse(v).unwrap();
        let isin = valor_to_isin(&valor, "CH").unwrap();
        assert_eq!(isin_to_valor(&isin).unwrap(), valor);
    }
}

#[test]
fn integration_build_isin_agrees_with_isin_parse() {
    for &(country, nsin, expected) in &[
        ("US", "037833100", "US0378331005"),
        ("US", "594918104", "US5949181045"),
        ("GB", "000263494", "GB0002634946"),
        ("DE", "000BAY001", "DE000BAY0017"),
        ("CH", "001213853", "CH0012138530"),
    ] {
        let built = build_isin(country, nsin).unwrap();
        assert_eq!(built.as_str(), expected);
        assert_eq!(built, Isin::parse(expected).unwrap());
    }
}

#[test]
fn integration_check_digit_schemes_are_independent() {
    // The CUSIP check digit and the ISIN check digit are computed by
    // unrelated algorithms; conversion recomputes the target's digit.
    let cusip = Cusip::parse("037833100").unwrap();
    assert_eq!(cusip.check_digit(), '0');
    assert_eq!(cusip_to_isin(&cusip, "US").unwrap().check_digit(), '5');
}

#[test]
fn conversion_rejects_unsupported_country() {
    // A GB ISIN has no embedded CUSIP.
    let gb = Isin::parse("GB0002634946").unwrap();
    assert_eq!(isin_to_cusip(&gb), Err(ConversionError::UnsupportedCountry));
    // A US ISIN embeds no SEDOL and no VALOR.
    let us = Isin::parse("US0378331005").unwrap();
    assert_eq!(isin_to_sedol(&us), Err(ConversionError::UnsupportedCountry));
    assert_eq!(isin_to_valor(&us), Err(ConversionError::UnsupportedCountry));
}

// ─── Auto-detection ──────────────────────────────────────────────────────────


#[test]
fn detects_every_checksum_bearing_kind() {
    for &(s, kind) in &[
        ("5493001KJTIIGC8Y1R12", IdentifierKind::Lei),
        ("US0378331005", IdentifierKind::Isin),
        ("BBG000BLNNH6", IdentifierKind::Figi),
        ("037833100", IdentifierKind::Cusip),
        ("0263494", IdentifierKind::Sedol),
        ("DEUTDEFF", IdentifierKind::Bic),
        ("DEUTDEFF500", IdentifierKind::Bic),
    ] {
        let id = SecurityId::detect(s).unwrap_or_else(|| panic!("{s} should detect"));
        assert_eq!(id.kind(), kind, "for input {s}");
        assert_eq!(id.as_str(), s);
    }
}

#[test]
fn integration_isin_wins_over_figi_at_twelve_characters() {
    let id = SecurityId::detect("US0378331005").unwrap();
    assert_eq!(id.kind(), IdentifierKind::Isin);
}

#[test]
fn integration_figi_is_not_mislabelled_as_isin() {
    let id = SecurityId::detect("BBG000BLNNH6").unwrap();
    assert_eq!(id.kind(), IdentifierKind::Figi);
}

#[test]
fn garbage_and_bad_check_digits_return_none() {
    for bad in [
        "",
        "garbage",
        "not-an-identifier",
        "US0378331004", // wrong ISIN check digit
        "037833101",    // wrong CUSIP check digit
    ] {
        assert!(SecurityId::detect(bad).is_none(), "{bad} should not detect");
    }
}

#[test]
fn integration_structural_only_kinds_are_not_detected() {
    // CFI, WKN, and VALOR parse on their own but carry no check digit, so
    // detection never reports them.
    assert!(Cfi::parse("ESVUFR").is_ok());
    assert!(SecurityId::detect("ESVUFR").is_none());
    assert!(Wkn::parse("A1EWWW").is_ok());
    assert!(SecurityId::detect("A1EWWW").is_none());
}


// ─── Invariants over generated inputs ────────────────────────────────────────

/// A small deterministic generator of test strings: `count` strings of
/// `min..=max` characters drawn from `alphabet`.
fn generated(alphabet: &[char], min: usize, max: usize, count: usize, seed: u64) -> Vec<String> {
    let mut state = seed;
    let mut next = move || {
        state = state.wrapping_mul(6364136223846793005).wrapping_add(1442695040888963407);
        (state >> 33) as usize
    };
    let mut out = Vec::with_capacity(count);
    for _ in 0..count {
        let len = min + next() % (max - min + 1);
        let s: String = (0..len).map(|_| alphabet[next() % alphabet.len()]).collect();
        out.push(s);
    }
    out
}

fn chars_of(s: &str) -> Vec<char> {
    s.chars().collect()
}

/// Every parser, none of which may panic whatever the input.
fn parse_with_every_kind(s: &str) {
    let _ = Isin::parse(s);
    let _ = Cusip::parse(s);
    let _ = Sedol::parse(s);
    let _ = Lei::parse(s);
    let _ = Figi::parse(s);
    let _ = Bic::parse(s);
    let _ = Mic::parse(s);
    let _ = Cfi::parse(s);
    let _ = Wkn::parse(s);
    let _ = Valor::parse(s);
    let _ = SecurityId::detect(s);
}

#[test]
fn random_strings_never_panic_parse() {
    let alphabet = chars_of("aZ09 -/*@#\u{0}\u{7f}éÉ€𝄞ßG");
    for s in generated(&alphabet, 0, 40, 2000, 1) {
        parse_with_every_kind(&s);
    }
}

#[test]
fn random_alphanumeric_never_panics() {
    let alphabet = chars_of("ABCDEFGHIJKLMNOPQRSTUVWXYZ0123456789*@#");
    for s in generated(&alphabet, 0, 24, 2000, 2) {
        parse_with_every_kind(&s);
    }
}

#[test]
fn accepted_isin_round_trips() {
    let alphabet = chars_of("ABCDEFGHIJKLMNOPQRSTUVWXYZ0123456789");
    let mut candidates = generated(&alphabet, 12, 12, 3000, 3);
    candidates.push("US0378331005".to_string());
    for s in candidates {
        if let Ok(isin) = Isin::parse(&s) {
            assert_eq!(isin.as_str(), s.as_str());
        }
    }
}

#[test]
fn accepted_cusip_round_trips() {
    let alphabet = chars_of("ABCDEFGHIJKLMNOPQRSTUVWXYZ0123456789*@#");
    let mut candidates = generated(&alphabet, 9, 9, 3000, 4);
    candidates.push("037833100".to_string());
    for s in candidates {
        if let Ok(cusip) = Cusip::parse(&s) {
            assert_eq!(cusip.as_str(), s.as_str());
        }
    }
}

#[test]
fn detected_value_round_trips() {
    let alphabet = chars_of("ABCDEFGHIJKLMNOPQRSTUVWXYZ0123456789");
    let mut candidates = generated(&alphabet, 4, 20, 3000, 5);
    candidates.push("DEUTDEFF".to_string());
    for s in candidates {
        if let Some(id) = SecurityId::detect(&s) {
            assert_eq!(id.as_str(), s.as_str());
        }
    }
}

#[test]
fn cusip_body_plus_check_always_parses() {
    let alphabet = chars_of("ABCDEFGHIJKLMNOPQRSTUVWXYZ0123456789");
    for body in generated(&alphabet, 8, 8, 500, 6) {
        let check = checkdigit::cusip_check_digit(&body).expect("8-char body");
        let mut full = body.clone();
        full.push(check);
        let cusip = Cusip::parse(&full).expect("body + computed check must parse");
        assert_eq!(cusip.check_digit(), check);
    }
}

#[test]
fn sedol_body_plus_check_always_parses() {
    let alphabet = chars_of("BCDFGHJKLMNPQRSTVWXYZ0123456789");
    for body in generated(&alphabet, 6, 6, 500, 7) {
        let check = checkdigit::sedol_check_digit(&body).expect("6-char body");
        let mut full = body.clone();
        full.push(check);
        let sedol = Sedol::parse(&full).expect("body + computed check must parse");
        assert_eq!(sedol.check_digit(), check);
    }
}

#[test]
fn isin_body_plus_check_always_parses() {
    let alphabet = chars_of("ABCDEFGHIJKLMNOPQRSTUVWXYZ0123456789");
    for nsin in generated(&alphabet, 9, 9, 500, 8) {
        let body = format!("US{nsin}");
        let check = checkdigit::isin_check_digit(&body).expect("11-char body");
        let mut full = body.clone();
        full.push(check);
        let isin = Isin::parse(&full).expect("US body + computed check must parse");
        assert_eq!(isin.check_digit(), check);
    }
}

// ─── MIC registry ────────────────────────────────────────────────────────────

#[test]
fn snapshot_date_is_iso_formatted() {
    // YYYY-MM-DD — ten characters with dashes at indices 4 and 7.
    assert_eq!(SNAPSHOT_DATE.len(), 10);
    let bytes = SNAPSHOT_DATE.as_bytes();
    assert_eq!(bytes[4], b'-');
    assert_eq!(bytes[7], b'-');
}

#[test]
fn registry_is_sorted_by_mic() {
    // Every registered code, read back in code order over all well-formed
    // MICs, names itself and comes after the one before it.
    let first: Vec<char> = ('A'..='Z').collect();
    let rest: Vec<char> = ('A'..='Z').chain('0'..='9').collect();
    let mut previous = String::new();
    let mut count = 0;
    for &a in &first {
        for &b in &rest {
            for &c in &rest {
                for &d in &rest {
                    let code: String = [a, b, c, d].iter().collect();
                    if let Some(entry) = mic_registry::lookup(&code) {
                        assert_eq!(entry.mic, code);
                        assert!(entry.mic > previous.as_str(), "{} follows {previous}", entry.mic);
                        previous = code;
                        count += 1;
                    }
                }
            }
        }
    }
    assert!(count > 0);
}

#[test]
fn lookup_finds_real_markets() {
    for &code in &["XNAS", "XLON", "XPAR", "XNYS"] {
        let entry =
            mic_registry::lookup(code).unwrap_or_else(|| panic!("{code} should be registered"));
        assert_eq!(entry.mic, code);
    }
}

#[test]
fn lookup_misses_unregistered_code() {
    assert!(mic_registry::lookup("ZZZZ").is_none());
}

#[test]
fn nasdaq_metadata_is_as_published() {
    let nasdaq = mic_registry::lookup("XNAS").expect("XNAS is registered");
    assert_eq!(nasdaq.country, "US");
    assert!(nasdaq.is_operating);
    assert_eq!(nasdaq.status, MicStatus::Active);
    assert_eq!(nasdaq.operating_mic, "XNAS");
}

#[test]
fn mic_lookup_and_parse_registered_agree() {
    let mic = Mic::parse("XLON").unwrap();
    assert!(mic.is_registered());
    assert!(mic.lookup().is_some());
    assert!(Mic::parse_registered("XLON").is_ok());

    // Well-formed but unregistered.
    assert_eq!(
        Mic::parse_registered("ZZZZ"),
        Err(ValidationError::Structure {
            rule: "MIC is not in the ISO 10383 registry",
        }),
    );
}

#[test]
fn detect_reports_registered_mic() {
    let id = SecurityId::detect("XNAS").unwrap();
    assert_eq!(id.kind(), IdentifierKind::Mic);
    // An unregistered but well-formed MIC is not detected.
    assert!(SecurityId::detect("ZZZZ").is_none());
}
