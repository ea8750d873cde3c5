//! Conversions between securities identifiers.
//!
//! For three jurisdictions the ISIN wraps a national number exactly and
//! reversibly:
//!
//! ```text
//!   US / CA ISIN   country · 9-char NSIN · check    NSIN is the CUSIP
//!   GB / IE ISIN   country · 00 + SEDOL  · check    NSIN is 00 + SEDOL
//!   CH / LI ISIN   country · 0…0 + VALOR · check    NSIN is the zero-padded VALOR
//! ```
//!
//! Every conversion recomputes the target's check digit and re-parses the
//! result through the target's validator. A conversion with no defined
//! meaning returns [`ConversionError::UnsupportedCountry`]; one whose inputs
//! are malformed returns [`ConversionError::NotConvertible`] or
//! [`ConversionError::Validation`].
use vstd::prelude::*;
use vstd::utf8::is_ascii_chars;
use crate::charset::{is_alnum_char, is_digit_char, lemma_scan_all_ok, lemma_scan_none_iff};
use crate::checkdigit::{is_sedol_body_char, isin_body_ok, isin_check_char, isin_check_digit, spec_isin_check_digit};
use crate::country::{is_isin_prefix, lemma_isin_prefix_letters, spec_is_isin_prefix};
use crate::bic::{stored_text_bytes, zero_bytes};
use crate::cusip::{is_valid_cusip, lemma_valid_cusip_facts, spec_cusip_parse, Cusip};
use crate::errors::{ConversionError, ValidationError};
use crate::isin::{is_valid_isin, law_isin_completion, lemma_valid_isin_facts, Isin};
use crate::sedol::{is_valid_sedol, lemma_valid_sedol_facts, spec_sedol_parse, Sedol};
use crate::text::{ascii_bytes, lemma_ascii_text, lemma_ascii_text_subrange, str_from_utf8_or_empty, utf8_text};
use crate::valor::{is_valid_valor, lemma_valid_valor_facts, spec_valor_parse, Valor};

verus! {

/// `n` characters `'0'`.
pub open spec fn zero_chars(n: nat) -> Seq<char> {
    Seq::new(n, |i: int| '0')
}

/// The 11-character ISIN body of a country prefix and a national number
/// right-aligned in the nine-character NSIN field with `'0'` padding.
pub open spec fn isin_body_of(country: Seq<char>, nsin: Seq<char>) -> Seq<char> {
    country + zero_chars((9 - nsin.len()) as nat) + nsin
}

/// What [`build_isin`] returns: the text of the built ISIN, or the error.
pub open spec fn spec_build_isin(country: Seq<char>, nsin: Seq<char>) -> Result<Seq<char>, ConversionError> {
    if !(is_ascii_chars(country) && country.len() == 2) {
        Err(ConversionError::NotConvertible { reason: "country prefix must be exactly two characters" })
    } else if !spec_is_isin_prefix(country) {
        Err(ConversionError::UnsupportedCountry)
    } else if !is_ascii_chars(nsin) {
        Err(ConversionError::NotConvertible { reason: "national number must be ASCII" })
    } else if nsin.len() == 0 || nsin.len() > 9 {
        Err(ConversionError::NotConvertible { reason: "national number must be 1 to 9 characters" })
    } else {
        match spec_isin_check_digit(isin_body_of(country, nsin)) {
            Err(e) => Err(ConversionError::Validation(e)),
            Ok(check) => Ok(isin_body_of(country, nsin).push(check)),
        }
    }
}

/// A returned ISIN or error agrees with the `expected` text or error: an
/// ISIN is returned exactly when a valid ISIN text is expected, and it
/// stores that text.
pub open spec fn isin_outcome(
    res: Result<Isin, ConversionError>,
    expected: Result<Seq<char>, ConversionError>,
) -> bool {
    match res {
        Ok(isin) => {
            &&& expected matches Ok(text)
            &&& is_valid_isin(text)
            &&& isin@ == ascii_bytes(text)
            &&& utf8_text(isin@) == text
        },
        Err(e) => expected == Err::<Seq<char>, ConversionError>(e),
    }
}

/// Builds an ISIN from a two-character country prefix and a national number
/// of 1 to 9 characters, left-padding the national number with `'0'` into
/// the nine-character NSIN field and computing a fresh check digit. The
/// result is re-parsed, so a built ISIN is always valid.
pub fn build_isin(country: &str, nsin: &str) -> (res: Result<Isin, ConversionError>)
    ensures
        isin_outcome(res, spec_build_isin(country@, nsin@)),
{
    proof {
        vstd::string::is_ascii_spec_bytes(country);
        vstd::string::is_ascii_spec_bytes(nsin);
    }
    let country_bytes = country.as_bytes();
    if country_bytes.len() != 2 || !country.is_ascii() {
        return Err(
            ConversionError::NotConvertible { reason: "country prefix must be exactly two characters" },
        );
    }
    if !is_isin_prefix(country) {
        return Err(ConversionError::UnsupportedCountry);
    }
    if !nsin.is_ascii() {
        return Err(ConversionError::NotConvertible { reason: "national number must be ASCII" });
    }
    let nsin_bytes = nsin.as_bytes();
    if nsin_bytes.len() == 0 || nsin_bytes.len() > 9 {
        return Err(
            ConversionError::NotConvertible { reason: "national number must be 1 to 9 characters" },
        );
    }
    let ghost cc = country@;
    let ghost nn = nsin@;
    let ghost body_text = isin_body_of(cc, nn);
    // The eleven-character body: the country prefix, then the national
    // number right-aligned in nine characters with leading '0' padding.
    let mut body = [48u8; 11];
    body[0] = country_bytes[0];
    body[1] = country_bytes[1];
    let pad = 9 - nsin_bytes.len();
    let mut i: usize = 0;
    while i < nsin_bytes.len()
        invariant
            nsin_bytes@.len() == nn.len(),
            1 <= nn.len() <= 9,
            pad == 9 - nn.len(),
            i <= nn.len(),
            forall|j: int| 0 <= j < nn.len() ==> nsin_bytes@[j] == #[trigger] nn[j] as u8,
            body@[0] == cc[0] as u8,
            body@[1] == cc[1] as u8,
            forall|j: int| 2 <= j < 2 + pad ==> body@[j] == 48,
            forall|j: int| 0 <= j < i ==> body@[2 + pad + j] == #[trigger] nn[j] as u8,
        decreases nn.len() - i,
    {
        body[2 + pad + i] = nsin_bytes[i];
        i += 1;
    }
    proof {
        assert(is_ascii_chars(body_text));
        assert(body@ =~= ascii_bytes(body_text));
        lemma_ascii_text(body_text);
    }
    let body_str = str_from_utf8_or_empty(body.as_slice());
    let check = match isin_check_digit(body_str) {
        Ok(c) => c,
        Err(e) => return Err(ConversionError::Validation(e)),
    };
    let ghost full_text = body_text.push(check);
    proof {
        lemma_scan_none_iff(body_text, isin_body_ok(), 0);
        assert forall|j: int| 0 <= j < 11 implies #[trigger] is_alnum_char(body_text[j]) by {
            assert(isin_body_ok()(j, body_text[j]));
        }
        assert(body_text.subrange(0, 2) =~= cc);
        law_isin_completion(body_text);
    }
    let mut full = [0u8; 12];
    let mut i: usize = 0;
    while i < 11
        invariant
            i <= 11,
            body@ == ascii_bytes(body_text),
            body_text.len() == 11,
            forall|j: int| 0 <= j < i ==> full@[j] == #[trigger] body@[j],
        decreases 11 - i,
    {
        full[i] = body[i];
        i += 1;
    }
    full[11] = check as u8;
    proof {
        assert(is_ascii_chars(full_text));
        assert forall|j: int| 0 <= j < 12 implies full@[j] == #[trigger] ascii_bytes(full_text)[j] by {
            if j < 11 {
                assert(full@[j] == body@[j]);
                assert(body@[j] == ascii_bytes(body_text)[j]);
            }
        }
        assert(full@ =~= ascii_bytes(full_text));
        lemma_ascii_text(full_text);
    }
    let full_str = str_from_utf8_or_empty(full.as_slice());
    match Isin::parse(full_str) {
        Ok(isin) => Ok(isin),
        Err(e) => Err(ConversionError::Validation(e)),
    }
}

// ─── National numbers inside an ISIN ─────────────────────────────────────────

/// The country-prefix text of stored ISIN bytes.
pub open spec fn isin_country_text(isin: Seq<u8>) -> Seq<char> {
    utf8_text(isin.subrange(0, 2))
}

/// The NSIN text of stored ISIN bytes.
pub open spec fn isin_nsin_text(isin: Seq<u8>) -> Seq<char> {
    utf8_text(isin.subrange(2, 11))
}

/// `code` is exactly the two characters `a`, `b`.
fn code_is(code: &str, a: char, b: char) -> (r: bool)
    ensures
        r == (code@ == seq![a, b]),
{
    if code.unicode_len() != 2 {
        return false;
    }
    let r = code.get_char(0) == a && code.get_char(1) == b;
    proof {
        if r {
            assert(code@ =~= seq![a, b]);
        }
    }
    r
}

/// What [`isin_to_cusip`] returns for stored ISIN bytes: for a `US` or `CA`
/// prefix the NSIN, when it is a valid CUSIP.
pub open spec fn spec_isin_to_cusip(isin: Seq<u8>) -> Result<Seq<char>, ConversionError> {
    let country = isin_country_text(isin);
    let nsin = isin_nsin_text(isin);
    if country == seq!['U', 'S'] || country == seq!['C', 'A'] {
        match spec_cusip_parse(nsin) {
            Ok(_) => Ok(nsin),
            Err(e) => Err(ConversionError::Validation(e)),
        }
    } else {
        Err(ConversionError::UnsupportedCountry)
    }
}

/// Extracts the CUSIP that a United States or Canada ISIN carries as its
/// nine-character NSIN, re-validating the CUSIP's own check digit.
pub fn isin_to_cusip(isin: &Isin) -> (res: Result<Cusip, ConversionError>)
    ensures
        match res {
            Ok(cusip) => {
                &&& spec_isin_to_cusip(isin@) matches Ok(text)
                &&& is_valid_cusip(text)
                &&& cusip@ == ascii_bytes(text)
            },
            Err(e) => spec_isin_to_cusip(isin@) == Err::<Seq<char>, ConversionError>(e),
        },
{
    let country = isin.country_code();
    if code_is(country, 'U', 'S') || code_is(country, 'C', 'A') {
        match Cusip::parse(isin.nsin()) {
            Ok(cusip) => Ok(cusip),
            Err(e) => Err(ConversionError::Validation(e)),
        }
    } else {
        Err(ConversionError::UnsupportedCountry)
    }
}

/// Wraps a CUSIP into an ISIN for `country`: the CUSIP becomes the NSIN
/// verbatim and a fresh ISIN check digit is computed.
pub fn cusip_to_isin(cusip: &Cusip, country: &str) -> (res: Result<Isin, ConversionError>)
    ensures
        isin_outcome(res, spec_build_isin(country@, utf8_text(cusip@))),
{
    build_isin(country, cusip.as_str())
}

/// The error for a GB or IE NSIN without the `00` that pads a SEDOL.
pub open spec fn missing_sedol_padding() -> ConversionError {
    ConversionError::NotConvertible { reason: "GB/IE NSIN must begin with 00 padding a SEDOL" }
}

/// What [`isin_to_sedol`] returns for stored ISIN bytes: for a `GB` or `IE`
/// prefix the NSIN after its leading `00`, when that is a valid SEDOL.
pub open spec fn spec_isin_to_sedol(isin: Seq<u8>) -> Result<Seq<char>, ConversionError> {
    let country = isin_country_text(isin);
    let nsin = isin_nsin_text(isin);
    if !(country == seq!['G', 'B'] || country == seq!['I', 'E']) {
        Err(ConversionError::UnsupportedCountry)
    } else if !(nsin.len() >= 2 && nsin[0] == '0' && nsin[1] == '0') {
        Err(missing_sedol_padding())
    } else {
        let rest = nsin.subrange(2, nsin.len() as int);
        match spec_sedol_parse(rest) {
            Ok(_) => Ok(rest),
            Err(e) => Err(ConversionError::Validation(e)),
        }
    }
}

/// Extracts the SEDOL that a United Kingdom or Ireland ISIN carries in its
/// NSIN after two literal `0` characters, re-validating the SEDOL.
pub fn isin_to_sedol(isin: &Isin) -> (res: Result<Sedol, ConversionError>)
    ensures
        match res {
            Ok(sedol) => {
                &&& spec_isin_to_sedol(isin@) matches Ok(text)
                &&& is_valid_sedol(text)
                &&& sedol@ == ascii_bytes(text)
            },
            Err(e) => spec_isin_to_sedol(isin@) == Err::<Seq<char>, ConversionError>(e),
        },
{
    let country = isin.country_code();
    if !(code_is(country, 'G', 'B') || code_is(country, 'I', 'E')) {
        return Err(ConversionError::UnsupportedCountry);
    }
    let nsin = isin.nsin();
    let n = nsin.unicode_len();
    if !(n >= 2 && nsin.get_char(0) == '0' && nsin.get_char(1) == '0') {
        return Err(
            ConversionError::NotConvertible { reason: "GB/IE NSIN must begin with 00 padding a SEDOL" },
        );
    }
    let rest = nsin.substring_char(2, n);
    match Sedol::parse(rest) {
        Ok(sedol) => Ok(sedol),
        Err(e) => Err(ConversionError::Validation(e)),
    }
}

/// Wraps a SEDOL into an ISIN for `country`: the NSIN is `00` followed by
/// the seven SEDOL characters, and a fresh ISIN check digit is computed.
pub fn sedol_to_isin(sedol: &Sedol, country: &str) -> (res: Result<Isin, ConversionError>)
    ensures
        isin_outcome(res, spec_build_isin(country@, utf8_text(seq![48u8, 48u8] + sedol@))),
{
    let sedol_bytes = sedol.as_bytes();
    let mut nsin = [48u8; 9];
    let mut k: usize = 0;
    while k < 7
        invariant
            k <= 7,
            sedol_bytes@ == sedol@,
            sedol_bytes@.len() == 7,
            nsin@[0] == 48,
            nsin@[1] == 48,
            forall|j: int| 0 <= j < k ==> nsin@[2 + j] == #[trigger] sedol_bytes@[j],
        decreases 7 - k,
    {
        nsin[2 + k] = sedol_bytes[k];
        k += 1;
    }
    proof {
        assert(nsin@ =~= seq![48u8, 48u8] + sedol@);
    }
    let nsin_str = str_from_utf8_or_empty(nsin.as_slice());
    build_isin(country, nsin_str)
}

/// `s` without its leading `'0'` characters.
pub open spec fn trim_leading_zeros(s: Seq<char>) -> Seq<char>
    decreases s.len(),
{
    if s.len() > 0 && s[0] == '0' {
        trim_leading_zeros(s.drop_first())
    } else {
        s
    }
}

/// The VALOR text of a NSIN: its leading zeros stripped, keeping one `'0'`
/// when nothing else is left.
pub open spec fn valor_text_of_nsin(nsin: Seq<char>) -> Seq<char> {
    if trim_leading_zeros(nsin).len() == 0 {
        seq!['0']
    } else {
        trim_leading_zeros(nsin)
    }
}

/// What [`isin_to_valor`] returns for stored ISIN bytes: for a `CH` or `LI`
/// prefix the NSIN without its leading zeros, when that is a valid VALOR.
pub open spec fn spec_isin_to_valor(isin: Seq<u8>) -> Result<Seq<char>, ConversionError> {
    let country = isin_country_text(isin);
    let valor = valor_text_of_nsin(isin_nsin_text(isin));
    if !(country == seq!['C', 'H'] || country == seq!['L', 'I']) {
        Err(ConversionError::UnsupportedCountry)
    } else {
        match spec_valor_parse(valor) {
            Ok(_) => Ok(valor),
            Err(e) => Err(ConversionError::Validation(e)),
        }
    }
}

/// Extracts the VALOR that a Switzerland or Liechtenstein ISIN carries as
/// its zero-padded NSIN: the leading zeros are stripped, at least one digit
/// is kept, and the result is re-validated.
pub fn isin_to_valor(isin: &Isin) -> (res: Result<Valor, ConversionError>)
    ensures
        match res {
            Ok(valor) => {
                &&& spec_isin_to_valor(isin@) matches Ok(text)
                &&& is_valid_valor(text)
                &&& valor@.0 == ascii_bytes(text) + zero_bytes((9 - text.len()) as nat)
                &&& valor@.1 == text.len()
                &&& utf8_text(stored_text_bytes(valor@.0, valor@.1)) == text
            },
            Err(e) => spec_isin_to_valor(isin@) == Err::<Seq<char>, ConversionError>(e),
        },
{
    let country = isin.country_code();
    if !(code_is(country, 'C', 'H') || code_is(country, 'L', 'I')) {
        return Err(ConversionError::UnsupportedCountry);
    }
    let nsin = isin.nsin();
    let n = nsin.unicode_len();
    // Skip the leading zeros.
    let mut i: usize = 0;
    proof {
        assert(nsin@.subrange(0, n as int) =~= nsin@);
    }
    while i < n && nsin.get_char(i) == '0'
        invariant
            i <= n,
            n == nsin@.len(),
            trim_leading_zeros(nsin@) == trim_leading_zeros(nsin@.subrange(i as int, n as int)),
        decreases n - i,
    {
        proof {
            assert(nsin@.subrange(i as int, n as int).drop_first() =~= nsin@.subrange(i + 1, n as int));
        }
        i += 1;
    }
    let trimmed = nsin.substring_char(i, n);
    let valor = if i == n {
        // An all-zero NSIN is the VALOR "0".
        "0"
    } else {
        trimmed
    };
    proof {
        reveal_strlit("0");
        assert(valor@ == valor_text_of_nsin(nsin@));
    }
    match Valor::parse(valor) {
        Ok(v) => Ok(v),
        Err(e) => Err(ConversionError::Validation(e)),
    }
}

/// Wraps a VALOR into an ISIN for `country`: the VALOR's digits are
/// left-padded with zeros into the NSIN and a fresh ISIN check digit is
/// computed.
pub fn valor_to_isin(valor: &Valor, country: &str) -> (res: Result<Isin, ConversionError>)
    ensures
        isin_outcome(res, spec_build_isin(country@, utf8_text(stored_text_bytes(valor@.0, valor@.1)))),
{
    build_isin(country, valor.as_str())
}

// ─── Round trips ─────────────────────────────────────────────────────────────

/// A valid ISIN stored as its ASCII bytes reads back its own prefix and NSIN.
proof fn lemma_isin_text_parts(text: Seq<char>)
    requires
        is_valid_isin(text),
    ensures
        isin_country_text(ascii_bytes(text)) == text.subrange(0, 2),
        isin_nsin_text(ascii_bytes(text)) == text.subrange(2, 11),
{
    lemma_valid_isin_facts(text);
    lemma_ascii_text_subrange(text, 0, 2);
    lemma_ascii_text_subrange(text, 2, 11);
}

/// An ISIN prefix with a national number of 1 to 9 characters of
/// `[A-Z0-9]` always builds: the body completed with its check digit.
proof fn lemma_build_isin_ok(country: Seq<char>, nsin: Seq<char>)
    requires
        spec_is_isin_prefix(country),
        1 <= nsin.len() <= 9,
        forall|j: int| 0 <= j < nsin.len() ==> #[trigger] is_alnum_char(nsin[j]),
    ensures
        spec_build_isin(country, nsin) == Ok::<Seq<char>, ConversionError>(
            isin_body_of(country, nsin).push(isin_check_char(isin_body_of(country, nsin))),
        ),
        is_valid_isin(isin_body_of(country, nsin).push(isin_check_char(isin_body_of(country, nsin)))),
{
    lemma_isin_prefix_letters(country);
    let body = isin_body_of(country, nsin);
    let pad = 9 - nsin.len();
    assert forall|j: int| 0 <= j < 11 implies #[trigger] is_alnum_char(body[j]) by {
        if j >= 2 + pad {
            assert(body[j] == nsin[j - 2 - pad]);
        }
    }
    assert(is_ascii_chars(country));
    assert forall|j: int| 0 <= j < nsin.len() implies '\0' <= #[trigger] nsin[j] <= '\u{7f}' by {
        assert(is_alnum_char(nsin[j]));
    }
    lemma_scan_all_ok(body, isin_body_ok(), 0);
    assert(body.subrange(0, 2) =~= country);
    law_isin_completion(body);
}

/// Extracting the CUSIP of a valid ISIN and wrapping it again under the same
/// prefix gives back the ISIN.
pub proof fn law_isin_cusip_isin(text: Seq<char>)
    requires
        is_valid_isin(text),
        spec_isin_to_cusip(ascii_bytes(text)) is Ok,
    ensures
        spec_build_isin(text.subrange(0, 2), spec_isin_to_cusip(ascii_bytes(text))->Ok_0)
            == Ok::<Seq<char>, ConversionError>(text),
{
    lemma_valid_isin_facts(text);
    lemma_isin_text_parts(text);
    let nsin = text.subrange(2, 11);
    assert forall|j: int| 0 <= j < 9 implies #[trigger] is_alnum_char(nsin[j]) by {
        assert(is_alnum_char(text[j + 2]));
    }
    lemma_build_isin_ok(text.subrange(0, 2), nsin);
    assert(isin_body_of(text.subrange(0, 2), nsin) =~= text.subrange(0, 11));
    assert(text.subrange(0, 11).push(text[11]) =~= text);
}

/// A valid CUSIP of digits and letters, wrapped into a `US` or `CA` ISIN,
/// comes back out of that ISIN unchanged.
pub proof fn law_cusip_isin_cusip(cusip: Seq<char>, country: Seq<char>)
    requires
        is_valid_cusip(cusip),
        forall|j: int| 0 <= j < cusip.len() ==> #[trigger] is_alnum_char(cusip[j]),
        country == seq!['U', 'S'] || country == seq!['C', 'A'],
    ensures
        spec_build_isin(country, cusip) matches Ok(text) && spec_isin_to_cusip(ascii_bytes(text))
            == Ok::<Seq<char>, ConversionError>(cusip),
{
    lemma_valid_cusip_facts(cusip);
    lemma_build_isin_ok(country, cusip);
    let body = isin_body_of(country, cusip);
    let text = body.push(isin_check_char(body));
    lemma_isin_text_parts(text);
    assert(text.subrange(0, 2) =~= country);
    assert(text.subrange(2, 11) =~= cusip);
}

/// Extracting the SEDOL of a valid ISIN and wrapping it again under the same
/// prefix gives back the ISIN.
pub proof fn law_isin_sedol_isin(text: Seq<char>)
    requires
        is_valid_isin(text),
        spec_isin_to_sedol(ascii_bytes(text)) is Ok,
    ensures
        spec_build_isin(
            text.subrange(0, 2),
            utf8_text(seq![48u8, 48u8] + ascii_bytes(spec_isin_to_sedol(ascii_bytes(text))->Ok_0)),
        ) == Ok::<Seq<char>, ConversionError>(text),
{
    lemma_valid_isin_facts(text);
    lemma_isin_text_parts(text);
    let nsin = text.subrange(2, 11);
    let sedol = nsin.subrange(2, 9);
    assert(seq![48u8, 48u8] + ascii_bytes(sedol) =~= ascii_bytes(nsin));
    assert(is_ascii_chars(nsin));
    lemma_ascii_text(nsin);
    assert forall|j: int| 0 <= j < 9 implies #[trigger] is_alnum_char(nsin[j]) by {
        assert(is_alnum_char(text[j + 2]));
    }
    lemma_build_isin_ok(text.subrange(0, 2), nsin);
    assert(isin_body_of(text.subrange(0, 2), nsin) =~= text.subrange(0, 11));
    assert(text.subrange(0, 11).push(text[11]) =~= text);
}

/// A valid SEDOL, wrapped into a `GB` or `IE` ISIN, comes back out of that
/// ISIN unchanged.
pub proof fn law_sedol_isin_sedol(sedol: Seq<char>, country: Seq<char>)
    requires
        is_valid_sedol(sedol),
        country == seq!['G', 'B'] || country == seq!['I', 'E'],
    ensures
        spec_build_isin(country, utf8_text(seq![48u8, 48u8] + ascii_bytes(sedol))) matches Ok(text)
            && spec_isin_to_sedol(ascii_bytes(text)) == Ok::<Seq<char>, ConversionError>(sedol),
{
    lemma_valid_sedol_facts(sedol);
    let nsin = seq!['0', '0'] + sedol;
    assert forall|j: int| 0 <= j < 9 implies #[trigger] is_alnum_char(nsin[j]) by {
        if j >= 2 {
            assert(nsin[j] == sedol[j - 2]);
            assert(is_sedol_body_char(sedol[j - 2]) || is_digit_char(sedol[j - 2]));
        }
    }
    assert forall|j: int| 0 <= j < 9 implies '\0' <= #[trigger] nsin[j] <= '\u{7f}' by {
        assert(is_alnum_char(nsin[j]));
    }
    assert(seq![48u8, 48u8] + ascii_bytes(sedol) =~= ascii_bytes(nsin));
    lemma_ascii_text(nsin);
    lemma_build_isin_ok(country, nsin);
    let body = isin_body_of(country, nsin);
    let text = body.push(isin_check_char(body));
    lemma_isin_text_parts(text);
    assert(text.subrange(0, 2) =~= country);
    assert(text.subrange(2, 11) =~= nsin);
    assert(nsin.subrange(2, 9) =~= sedol);
}

/// A text is its leading zeros followed by the text without them.
proof fn lemma_trim_leading_zeros(s: Seq<char>)
    ensures
        trim_leading_zeros(s).len() <= s.len(),
        s =~= zero_chars((s.len() - trim_leading_zeros(s).len()) as nat) + trim_leading_zeros(s),
        trim_leading_zeros(s).len() > 0 ==> trim_leading_zeros(s)[0] != '0',
    decreases s.len(),
{
    if s.len() > 0 && s[0] == '0' {
        let d = s.drop_first();
        lemma_trim_leading_zeros(d);
        let t = trim_leading_zeros(d);
        let k = (s.len() - t.len()) as nat;
        assert forall|j: int| 0 <= j < s.len() implies s[j] == #[trigger] (zero_chars(k) + t)[j] by {
            if j > 0 {
                assert(s[j] == d[j - 1]);
                assert(d[j - 1] == (zero_chars((k - 1) as nat) + t)[j - 1]);
            }
        }
    } else {
        assert(zero_chars(0) + s =~= s);
    }
}

/// Leading zeros in front of a text are stripped with the text's own.
proof fn lemma_trim_zero_prefix(k: nat, u: Seq<char>)
    ensures
        trim_leading_zeros(zero_chars(k) + u) == trim_leading_zeros(u),
    decreases k,
{
    if k == 0 {
        assert(zero_chars(0) + u =~= u);
    } else {
        assert((zero_chars(k) + u).drop_first() =~= zero_chars((k - 1) as nat) + u);
        lemma_trim_zero_prefix((k - 1) as nat, u);
    }
}

/// Extracting the VALOR of a valid ISIN and wrapping it again under the same
/// prefix gives back the ISIN.
pub proof fn law_isin_valor_isin(text: Seq<char>)
    requires
        is_valid_isin(text),
        spec_isin_to_valor(ascii_bytes(text)) is Ok,
    ensures
        spec_build_isin(text.subrange(0, 2), spec_isin_to_valor(ascii_bytes(text))->Ok_0)
            == Ok::<Seq<char>, ConversionError>(text),
{
    lemma_valid_isin_facts(text);
    lemma_isin_text_parts(text);
    let nsin = text.subrange(2, 11);
    let valor = valor_text_of_nsin(nsin);
    lemma_valid_valor_facts(valor);
    lemma_trim_leading_zeros(nsin);
    assert forall|j: int| 0 <= j < valor.len() implies #[trigger] is_alnum_char(valor[j]) by {
        assert(is_digit_char(valor[j]));
    }
    if trim_leading_zeros(nsin).len() == 0 {
        assert(zero_chars(8) + seq!['0'] =~= nsin);
    }
    assert(zero_chars((9 - valor.len()) as nat) + valor =~= nsin);
    assert(text.subrange(0, 11) =~= text.subrange(0, 2) + nsin);
    lemma_build_isin_ok(text.subrange(0, 2), valor);
    assert(isin_body_of(text.subrange(0, 2), valor) =~= text.subrange(0, 11));
    assert(text.subrange(0, 11).push(text[11]) =~= text);
}

/// A valid VALOR with no superfluous leading zero, wrapped into a `CH` or
/// `LI` ISIN, comes back out of that ISIN unchanged.
pub proof fn law_valor_isin_valor(valor: Seq<char>, country: Seq<char>)
    requires
        is_valid_valor(valor),
        valor[0] != '0' || valor == seq!['0'],
        country == seq!['C', 'H'] || country == seq!['L', 'I'],
    ensures
        spec_build_isin(country, valor) matches Ok(text) && spec_isin_to_valor(ascii_bytes(text))
            == Ok::<Seq<char>, ConversionError>(valor),
{
    lemma_valid_valor_facts(valor);
    assert forall|j: int| 0 <= j < valor.len() implies #[trigger] is_alnum_char(valor[j]) by {
        assert(is_digit_char(valor[j]));
    }
    lemma_build_isin_ok(country, valor);
    let body = isin_body_of(country, valor);
    let text = body.push(isin_check_char(body));
    lemma_isin_text_parts(text);
    let nsin = zero_chars((9 - valor.len()) as nat) + valor;
    assert(text.subrange(0, 2) =~= country);
    assert(text.subrange(2, 11) =~= nsin);
    lemma_trim_zero_prefix((9 - valor.len()) as nat, valor);
    if valor == seq!['0'] {
        assert(valor.drop_first() =~= Seq::<char>::empty());
        assert(trim_leading_zeros(valor.drop_first()) =~= Seq::<char>::empty());
    }
    assert(valor_text_of_nsin(nsin) == valor);
    assert(isin_nsin_text(ascii_bytes(text)) == nsin);
}

} // verus!
