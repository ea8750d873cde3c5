//! ISIN — International Securities Identification Number (ISO 6166).
//!
//! Exactly 12 characters: a two-letter country prefix `[0..2]` (an ISO
//! 3166-1 code or an ISIN substitute prefix), the nine-character NSIN
//! `[2..11]` over `[A-Z0-9]`, and a check digit `[11]` — the Luhn mod-10 of
//! the expanded 11-character body, recomputed and verified on parse.
use vstd::prelude::*;
use vstd::utf8::is_ascii_chars;
use crate::charset::{
    ascii_byte, char_scan, is_alnum, is_alnum_char, is_digit, is_digit_char, lemma_scan_all_ok,
    lemma_mod10_check_char_digit, lemma_scan_none_iff, lemma_scan_skip,
};
use crate::checkdigit::{spec_isin_check_digit, isin_body_ok, isin_check_char, isin_check_digit, isin_expand, luhn_sum};
use crate::country::{is_isin_prefix, spec_is_isin_prefix};
use crate::errors::ValidationError;
use crate::text::{ascii_bytes, lemma_ascii_text, lemma_ascii_text_subrange, str_from_utf8_or_empty, utf8_text};

verus! {

/// Character set of position `i` of an ISIN: `[A-Z0-9]`, a digit last.
pub open spec fn isin_char_ok(i: int, c: char) -> bool {
    if i == 11 {
        is_digit_char(c)
    } else {
        is_alnum_char(c)
    }
}

/// The per-position character check of an ISIN.
pub open spec fn isin_ok() -> spec_fn(int, char) -> bool {
    |i: int, c: char| isin_char_ok(i, c)
}

/// The verdict of [`Isin::parse`] on `s`: length, then characters, then
/// the country prefix, then the recomputed check digit.
pub open spec fn spec_isin_parse(s: Seq<char>) -> Result<(), ValidationError> {
    if s.len() != 12 {
        Err(ValidationError::WrongLength { expected: 12, found: s.len() as usize })
    } else if char_scan(s, isin_ok()) is Err {
        char_scan(s, isin_ok())
    } else if !spec_is_isin_prefix(s.subrange(0, 2)) {
        Err(ValidationError::InvalidCountryCode)
    } else if isin_check_char(s.subrange(0, 11)) != s[11] {
        Err(ValidationError::BadCheckDigit { expected: isin_check_char(s.subrange(0, 11)), found: s[11] })
    } else {
        Ok(())
    }
}

/// `s` is a valid ISIN.
pub open spec fn is_valid_isin(s: Seq<char>) -> bool {
    spec_isin_parse(s) is Ok
}

/// What a valid ISIN is made of: twelve ASCII characters, `[A-Z0-9]` with a
/// digit last, a recognised prefix, and the body's check digit last.
pub proof fn lemma_valid_isin_facts(s: Seq<char>)
    requires
        is_valid_isin(s),
    ensures
        s.len() == 12,
        forall|j: int| 0 <= j < 11 ==> #[trigger] is_alnum_char(s[j]),
        is_digit_char(s[11]),
        is_ascii_chars(s),
        spec_is_isin_prefix(s.subrange(0, 2)),
        isin_check_char(s.subrange(0, 11)) == s[11],
{
    lemma_scan_none_iff(s, isin_ok(), 0);
    assert forall|j: int| 0 <= j < 12 implies #[trigger] isin_char_ok(j, s[j]) by {
        assert(isin_ok()(j, s[j]));
    }
    assert forall|j: int| 0 <= j < 11 implies #[trigger] is_alnum_char(s[j]) by {
        assert(isin_char_ok(j, s[j]));
    }
    assert(isin_char_ok(11, s[11]));
    assert forall|j: int| 0 <= j < 12 implies '\0' <= #[trigger] s[j] <= '\u{7f}' by {
        assert(isin_char_ok(j, s[j]));
    }
}

/// The check digit of a valid ISIN is the one that `isin_check_digit`
/// computes for its first eleven characters, and it is what
/// `Isin::check_digit` reports for the parsed ISIN.
pub proof fn law_isin_check_digit(s: Seq<char>)
    requires
        is_valid_isin(s),
    ensures
        spec_isin_check_digit(s.subrange(0, 11)) == Ok::<char, ValidationError>(s[11]),
        ascii_bytes(s)[11] as char == s[11],
{
    lemma_valid_isin_facts(s);
    let body = s.subrange(0, 11);
    assert forall|j: int| 0 <= j < 11 implies #[trigger] is_alnum_char(body[j]) by {
        assert(body[j] == s[j]);
    }
    lemma_scan_all_ok(body, isin_body_ok(), 0);
}

/// An ISIN body — a valid country prefix followed by nine characters of
/// `[A-Z0-9]` — completed with the check digit that `isin_check_digit`
/// computes for it always parses.
pub proof fn law_isin_completion(body: Seq<char>)
    requires
        body.len() == 11,
        forall|j: int| 0 <= j < 11 ==> #[trigger] is_alnum_char(body[j]),
        spec_is_isin_prefix(body.subrange(0, 2)),
    ensures
        spec_isin_check_digit(body) == Ok::<char, ValidationError>(isin_check_char(body)),
        is_valid_isin(body.push(isin_check_char(body))),
{
    let s = body.push(isin_check_char(body));
    lemma_scan_all_ok(body, isin_body_ok(), 0);
    lemma_mod10_check_char_digit(luhn_sum(isin_expand(body), true));
    assert forall|j: int| 0 <= j < 12 implies #[trigger] isin_char_ok(j, s[j]) by {
        if j < 11 {
            assert(s[j] == body[j]);
            assert(is_alnum_char(body[j]));
        }
    }
    lemma_scan_all_ok(s, isin_ok(), 0);
    assert(s.subrange(0, 2) =~= body.subrange(0, 2));
    assert(s.subrange(0, 11) =~= body);
}

/// A validated International Securities Identification Number, stored as
/// its 12 ASCII bytes.
#[derive(Debug, Clone, Copy, PartialEq, Eq, Hash)]
pub struct Isin {
    bytes: [u8; 12],
}

impl View for Isin {
    type V = Seq<u8>;

    closed spec fn view(&self) -> Seq<u8> {
        self.bytes@
    }
}

fn isin_char_check(i: usize, c: char) -> (r: bool)
    ensures
        r == isin_char_ok(i as int, c),
{
    if i == 11 {
        is_digit(c)
    } else {
        is_alnum(c)
    }
}

impl Isin {
    /// The number of characters in an ISIN.
    pub const LENGTH: usize = 12;

    /// Parses and fully validates an ISIN: exact length, the per-position
    /// character set, a recognised country prefix, and a check digit that is
    /// recomputed from the body and compared.
    pub fn parse(s: &str) -> (res: Result<Self, ValidationError>)
        ensures
            match res {
                Ok(v) => is_valid_isin(s@) && v@ == ascii_bytes(s@) && utf8_text(v@) == s@,
                Err(e) => spec_isin_parse(s@) == Err::<(), ValidationError>(e),
            },
    {
        let found = s.unicode_len();
        if found != 12 {
            return Err(ValidationError::WrongLength { expected: 12, found });
        }
        let ghost cs = s@;
        let mut bytes = [0u8; 12];
        let mut k: usize = 0;
        for c in it: s.chars()
            invariant
                k == it.index(),
                it.seq() == cs,
                cs == s@,
                cs.len() == 12,
                forall|j: int| 0 <= j < k ==> isin_char_ok(j, #[trigger] cs[j]),
                forall|j: int| 0 <= j < k ==> bytes@[j] == #[trigger] cs[j] as u8,
        {
            assert(c == cs[k as int]);
            if !isin_char_check(k, c) {
                proof {
                    lemma_scan_skip(cs, isin_ok(), 0, k as int);
                }
                return Err(ValidationError::InvalidCharacter { position: k + 1, found: c });
            }
            bytes[k] = ascii_byte(c);
            k += 1;
        }
        proof {
            lemma_scan_all_ok(cs, isin_ok(), 0);
            assert(is_ascii_chars(cs));
            assert(bytes@ =~= ascii_bytes(cs));
            lemma_ascii_text(cs);
        }
        if !is_isin_prefix(s.substring_char(0, 2)) {
            return Err(ValidationError::InvalidCountryCode);
        }
        let body = s.substring_char(0, 11);
        proof {
            assert forall|j: int| 0 <= j < 11 implies #[trigger] is_alnum_char(body@[j]) by {
                assert(isin_char_ok(j, cs[j]));
            }
            lemma_scan_all_ok(body@, isin_body_ok(), 0);
        }
        let expected = match isin_check_digit(body) {
            Ok(c) => c,
            Err(e) => return Err(e),
        };
        let supplied = bytes[11] as char;
        if expected != supplied {
            return Err(ValidationError::BadCheckDigit { expected, found: supplied });
        }
        Ok(Isin { bytes })
    }

    /// Validates an ISIN without constructing one.
    pub fn validate(s: &str) -> (res: Result<(), ValidationError>)
        ensures
            res == spec_isin_parse(s@),
    {
        match Self::parse(s) {
            Ok(_) => Ok(()),
            Err(e) => Err(e),
        }
    }

    /// Wraps 12 raw bytes as an `Isin` without any validation.
    pub fn from_bytes_unchecked(bytes: [u8; 12]) -> (r: Self)
        ensures
            r@ == bytes@,
    {
        Isin { bytes }
    }

    /// The ISIN as a string slice.
    pub fn as_str(&self) -> (r: &str)
        ensures
            r@ == utf8_text(self@),
    {
        str_from_utf8_or_empty(self.bytes.as_slice())
    }

    /// The ISIN as its 12 raw bytes.
    pub fn as_bytes(&self) -> (r: &[u8])
        ensures
            r@ == self@,
    {
        self.bytes.as_slice()
    }

    /// The two-character country prefix, characters 1–2.
    pub fn country_code(&self) -> (r: &str)
        ensures
            r@ == utf8_text(self@.subrange(0, 2)),
    {
        str_from_utf8_or_empty(vstd::slice::slice_subrange(self.bytes.as_slice(), 0, 2))
    }

    /// The nine-character NSIN, characters 3–11.
    pub fn nsin(&self) -> (r: &str)
        ensures
            r@ == utf8_text(self@.subrange(2, 11)),
    {
        str_from_utf8_or_empty(vstd::slice::slice_subrange(self.bytes.as_slice(), 2, 11))
    }

    /// The check digit, character 12.
    pub fn check_digit(&self) -> (r: char)
        ensures
            r == self@[11] as char,
    {
        self.bytes[11] as char
    }
}

impl core::str::FromStr for Isin {
    type Err = ValidationError;

    fn from_str(s: &str) -> (res: Result<Self, Self::Err>)
        ensures
            match res {
                Ok(v) => is_valid_isin(s@) && v@ == ascii_bytes(s@) && utf8_text(v@) == s@,
                Err(e) => spec_isin_parse(s@) == Err::<(), ValidationError>(e),
            },
    {
        Self::parse(s)
    }
}

impl AsRef<str> for Isin {
    fn as_ref(&self) -> (r: &str)
        ensures
            r@ == utf8_text(self@),
    {
        self.as_str()
    }
}

} // verus!
