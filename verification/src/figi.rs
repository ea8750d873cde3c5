//! FIGI — Financial Instrument Global Identifier (ANSI X9.145).
//!
//! Exactly 12 characters: a two-consonant provider prefix `[0..2]` that
//! must not be one of `BS BM GG GB GH KY VG`, the literal `G` `[2]`, an
//! eight-character body `[3..11]` of digits and consonants, and a check digit
//! `[11]` — the right-to-left double-add-double of the 11-character body,
//! recomputed and verified on parse.
use vstd::prelude::*;
use vstd::utf8::is_ascii_chars;
use crate::charset::{
    ascii_byte, lemma_mod10_check_char_digit, char_scan, is_ascii_char, is_consonant, is_consonant_char, is_digit, is_digit_char,
    lemma_scan_all_ok, lemma_scan_skip,
};
use crate::checkdigit::{figi_sum, spec_figi_check_digit, figi_body_ok, figi_check_char, figi_check_digit, is_figi_body, is_figi_body_char};
use crate::errors::ValidationError;
use crate::text::{ascii_bytes, lemma_ascii_text, str_from_utf8_or_empty, utf8_text};

verus! {

/// Character set of position `i` of a FIGI: consonants in the prefix, any
/// ASCII character at position 3 (the literal `G` is a structural rule),
/// digits and consonants in the body, a digit last.
pub open spec fn figi_char_ok(i: int, c: char) -> bool {
    if i < 2 {
        is_consonant_char(c)
    } else if i == 2 {
        is_ascii_char(c)
    } else if i == 11 {
        is_digit_char(c)
    } else {
        is_figi_body_char(c)
    }
}

/// The per-position character check of a FIGI.
pub open spec fn figi_ok() -> spec_fn(int, char) -> bool {
    |i: int, c: char| figi_char_ok(i, c)
}

/// A provider prefix that would collide with an ISIN country code.
pub open spec fn is_forbidden_figi_prefix(a: char, b: char) -> bool {
    (a == 'B' && b == 'S') || (a == 'B' && b == 'M') || (a == 'G' && b == 'G') || (a == 'G' && b
        == 'B') || (a == 'G' && b == 'H') || (a == 'K' && b == 'Y') || (a == 'V' && b == 'G')
}

/// The verdict of [`Figi::parse`] on `s`.
pub open spec fn spec_figi_parse(s: Seq<char>) -> Result<(), ValidationError> {
    if s.len() != 12 {
        Err(ValidationError::WrongLength { expected: 12, found: s.len() as usize })
    } else if char_scan(s, figi_ok()) is Err {
        char_scan(s, figi_ok())
    } else if is_forbidden_figi_prefix(s[0], s[1]) {
        Err(ValidationError::Structure { rule: "FIGI provider prefix must not be an ISIN country code" })
    } else if s[2] != 'G' {
        Err(ValidationError::Structure { rule: "FIGI position 3 must be the letter G" })
    } else if figi_check_char(s.subrange(0, 11)) != s[11] {
        Err(ValidationError::BadCheckDigit { expected: figi_check_char(s.subrange(0, 11)), found: s[11] })
    } else {
        Ok(())
    }
}

/// `s` is a valid FIGI.
pub open spec fn is_valid_figi(s: Seq<char>) -> bool {
    spec_figi_parse(s) is Ok
}

/// A FIGI body — a permitted two-consonant prefix, the letter `G`, and
/// eight digits or consonants — completed with the check digit that
/// `figi_check_digit` computes for it always parses.
pub proof fn law_figi_completion(body: Seq<char>)
    requires
        body.len() == 11,
        is_consonant_char(body[0]),
        is_consonant_char(body[1]),
        !is_forbidden_figi_prefix(body[0], body[1]),
        body[2] == 'G',
        forall|j: int| 3 <= j < 11 ==> #[trigger] is_figi_body_char(body[j]),
    ensures
        spec_figi_check_digit(body) == Ok::<char, ValidationError>(figi_check_char(body)),
        is_valid_figi(body.push(figi_check_char(body))),
{
    let s = body.push(figi_check_char(body));
    lemma_mod10_check_char_digit(figi_sum(body, false));
    assert forall|j: int| 0 <= j < 11 implies #[trigger] is_figi_body_char(body[j]) by {
        if j < 3 {
            assert(is_consonant_char(body[j]));
        }
    }
    lemma_scan_all_ok(body, figi_body_ok(), 0);
    assert forall|j: int| 0 <= j < 12 implies #[trigger] figi_char_ok(j, s[j]) by {
        if j < 11 {
            assert(s[j] == body[j]);
        }
    }
    lemma_scan_all_ok(s, figi_ok(), 0);
    assert(s.subrange(0, 11) =~= body);
}

/// A validated Financial Instrument Global Identifier, stored as its 12
/// ASCII bytes.
#[derive(Debug, Clone, Copy, PartialEq, Eq, Hash)]
pub struct Figi {
    bytes: [u8; 12],
}

impl View for Figi {
    type V = Seq<u8>;

    closed spec fn view(&self) -> Seq<u8> {
        self.bytes@
    }
}

fn figi_char_check(i: usize, c: char) -> (r: bool)
    ensures
        r == figi_char_ok(i as int, c),
{
    if i < 2 {
        is_consonant(c)
    } else if i == 2 {
        '\0' <= c && c <= '\u{7f}'
    } else if i == 11 {
        is_digit(c)
    } else {
        is_figi_body(c)
    }
}

fn is_forbidden_prefix(a: u8, b: u8) -> (r: bool)
    ensures
        r == is_forbidden_figi_prefix(a as char, b as char),
{
    (a == 66 && b == 83) || (a == 66 && b == 77) || (a == 71 && b == 71) || (a == 71 && b == 66)
        || (a == 71 && b == 72) || (a == 75 && b == 89) || (a == 86 && b == 71)
}

impl Figi {
    /// The number of characters in a FIGI.
    pub const LENGTH: usize = 12;

    /// Parses and fully validates a FIGI: exact length, the per-position
    /// character set, the forbidden-prefix and literal-`G` rules, and a
    /// check digit recomputed from the body.
    pub fn parse(s: &str) -> (res: Result<Self, ValidationError>)
        ensures
            match res {
                Ok(v) => is_valid_figi(s@) && v@ == ascii_bytes(s@) && utf8_text(v@) == s@,
                Err(e) => spec_figi_parse(s@) == Err::<(), ValidationError>(e),
            },
    {
        let found = s.unicode_len();
        if found != 12 {
            return Err(ValidationError::WrongLength { expected: 12, found });
        }
        let ghost cs = s@;
        let mut bytes = [0u8; 12];
        let mut k: usize = 0;
        for c in it: s.chars()
            invariant
                k == it.index(),
                it.seq() == cs,
                cs == s@,
                cs.len() == 12,
                forall|j: int| 0 <= j < k ==> figi_char_ok(j, #[trigger] cs[j]),
                forall|j: int| 0 <= j < k ==> bytes@[j] == #[trigger] cs[j] as u8,
        {
            assert(c == cs[k as int]);
            if !figi_char_check(k, c) {
                proof {
                    lemma_scan_skip(cs, figi_ok(), 0, k as int);
                }
                return Err(ValidationError::InvalidCharacter { position: k + 1, found: c });
            }
            bytes[k] = ascii_byte(c);
            k += 1;
        }
        proof {
            lemma_scan_all_ok(cs, figi_ok(), 0);
            assert forall|j: int| 0 <= j < 12 implies is_ascii_char(#[trigger] cs[j]) by {
                assert(figi_char_ok(j, cs[j]));
            }
            assert(is_ascii_chars(cs));
            assert(bytes@ =~= ascii_bytes(cs));
            lemma_ascii_text(cs);
        }
        // The provider prefix must not collide with an ISIN country code.
        if is_forbidden_prefix(bytes[0], bytes[1]) {
            return Err(
                ValidationError::Structure {
                    rule: "FIGI provider prefix must not be an ISIN country code",
                },
            );
        }
        // Character 3 is always the literal 'G'.
        if bytes[2] != 71 {
            return Err(ValidationError::Structure { rule: "FIGI position 3 must be the letter G" });
        }
        let body = s.substring_char(0, 11);
        proof {
            assert forall|j: int| 0 <= j < 11 implies #[trigger] is_figi_body_char(body@[j]) by {
                assert(figi_char_ok(j, cs[j]));
            }
            lemma_scan_all_ok(body@, figi_body_ok(), 0);
        }
        let expected = match figi_check_digit(body) {
            Ok(c) => c,
            Err(e) => return Err(e),
        };
        let supplied = bytes[11] as char;
        if expected != supplied {
            return Err(ValidationError::BadCheckDigit { expected, found: supplied });
        }
        Ok(Figi { bytes })
    }

    /// Validates a FIGI without constructing one.
    pub fn validate(s: &str) -> (res: Result<(), ValidationError>)
        ensures
            res == spec_figi_parse(s@),
    {
        match Self::parse(s) {
            Ok(_) => Ok(()),
            Err(e) => Err(e),
        }
    }

    /// Wraps 12 raw bytes as a `Figi` without any validation.
    pub fn from_bytes_unchecked(bytes: [u8; 12]) -> (r: Self)
        ensures
            r@ == bytes@,
    {
        Figi { bytes }
    }

    /// The FIGI as a string slice.
    pub fn as_str(&self) -> (r: &str)
        ensures
            r@ == utf8_text(self@),
    {
        str_from_utf8_or_empty(self.bytes.as_slice())
    }

    /// The FIGI as its 12 raw bytes.
    pub fn as_bytes(&self) -> (r: &[u8])
        ensures
            r@ == self@,
    {
        self.bytes.as_slice()
    }

    /// The three-character provider prefix including the literal `G`,
    /// characters 1–3.
    pub fn provider_prefix(&self) -> (r: &str)
        ensures
            r@ == utf8_text(self@.subrange(0, 3)),
    {
        str_from_utf8_or_empty(vstd::slice::slice_subrange(self.bytes.as_slice(), 0, 3))
    }

    /// The eight-character body, characters 4–11.
    pub fn body(&self) -> (r: &str)
        ensures
            r@ == utf8_text(self@.subrange(3, 11)),
    {
        str_from_utf8_or_empty(vstd::slice::slice_subrange(self.bytes.as_slice(), 3, 11))
    }

    /// The check digit, character 12.
    pub fn check_digit(&self) -> (r: char)
        ensures
            r == self@[11] as char,
    {
        self.bytes[11] as char
    }

    /// `true` if the FIGI was issued by Bloomberg: its prefix is `BBG`.
    pub fn is_bloomberg(&self) -> (r: bool)
        ensures
            r == (self@[0] == 66 && self@[1] == 66 && self@[2] == 71),
    {
        self.bytes[0] == 66 && self.bytes[1] == 66 && self.bytes[2] == 71
    }
}

impl core::str::FromStr for Figi {
    type Err = ValidationError;

    fn from_str(s: &str) -> (res: Result<Self, Self::Err>)
        ensures
            match res {
                Ok(v) => is_valid_figi(s@) && v@ == ascii_bytes(s@) && utf8_text(v@) == s@,
                Err(e) => spec_figi_parse(s@) == Err::<(), ValidationError>(e),
            },
    {
        Self::parse(s)
    }
}

impl AsRef<str> for Figi {
    fn as_ref(&self) -> (r: &str)
        ensures
            r@ == utf8_text(self@),
    {
        self.as_str()
    }
}

} // verus!
