//! SEDOL — Stock Exchange Daily Official List number (London Stock
//! Exchange).
//!
//! Exactly 7 characters: a six-character body `[0..6]` of digits and
//! upper-case consonants (never a vowel), and a check digit `[6]` — the
//! weighted sum with weights `1,3,1,7,3,9` of the body, recomputed and
//! verified on parse.
use vstd::prelude::*;
use vstd::utf8::is_ascii_chars;
use crate::charset::{ascii_byte, lemma_mod10_check_char_digit, char_scan, is_digit, is_digit_char, lemma_scan_all_ok, lemma_scan_none_iff, lemma_scan_skip};
use crate::checkdigit::{sedol_sum, spec_sedol_check_digit, is_sedol_body, is_sedol_body_char, sedol_body_ok, sedol_check_char, sedol_check_digit};
use crate::errors::ValidationError;
use crate::text::{ascii_bytes, lemma_ascii_text, str_from_utf8_or_empty, utf8_text};

verus! {

/// Character set of position `i` of a SEDOL: digits and consonants, a
/// digit last.
pub open spec fn sedol_char_ok(i: int, c: char) -> bool {
    if i == 6 {
        is_digit_char(c)
    } else {
        is_sedol_body_char(c)
    }
}

/// The per-position character check of a SEDOL.
pub open spec fn sedol_ok() -> spec_fn(int, char) -> bool {
    |i: int, c: char| sedol_char_ok(i, c)
}

/// The verdict of [`Sedol::parse`] on `s`.
pub open spec fn spec_sedol_parse(s: Seq<char>) -> Result<(), ValidationError> {
    if s.len() != 7 {
        Err(ValidationError::WrongLength { expected: 7, found: s.len() as usize })
    } else if char_scan(s, sedol_ok()) is Err {
        char_scan(s, sedol_ok())
    } else if sedol_check_char(s.subrange(0, 6)) != s[6] {
        Err(ValidationError::BadCheckDigit { expected: sedol_check_char(s.subrange(0, 6)), found: s[6] })
    } else {
        Ok(())
    }
}

/// `s` is a valid SEDOL.
pub open spec fn is_valid_sedol(s: Seq<char>) -> bool {
    spec_sedol_parse(s) is Ok
}

/// What a valid SEDOL is made of: seven ASCII digits and upper-case
/// consonants with a digit last, the last being the body's check digit.
pub proof fn lemma_valid_sedol_facts(s: Seq<char>)
    requires
        is_valid_sedol(s),
    ensures
        s.len() == 7,
        forall|j: int| 0 <= j < 6 ==> #[trigger] is_sedol_body_char(s[j]),
        is_digit_char(s[6]),
        is_ascii_chars(s),
        sedol_check_char(s.subrange(0, 6)) == s[6],
{
    lemma_scan_none_iff(s, sedol_ok(), 0);
    assert forall|j: int| 0 <= j < 7 implies #[trigger] sedol_char_ok(j, s[j]) by {
        assert(sedol_ok()(j, s[j]));
    }
    assert forall|j: int| 0 <= j < 6 implies #[trigger] is_sedol_body_char(s[j]) by {
        assert(sedol_char_ok(j, s[j]));
    }
    assert(sedol_char_ok(6, s[6]));
    assert forall|j: int| 0 <= j < 7 implies '\0' <= #[trigger] s[j] <= '\u{7f}' by {
        assert(sedol_char_ok(j, s[j]));
    }
}

/// A SEDOL body completed with the check digit that `sedol_check_digit`
/// computes for it always parses.
pub proof fn law_sedol_completion(body: Seq<char>)
    requires
        body.len() == 6,
        forall|j: int| 0 <= j < 6 ==> #[trigger] is_sedol_body_char(body[j]),
    ensures
        spec_sedol_check_digit(body) == Ok::<char, ValidationError>(sedol_check_char(body)),
        is_valid_sedol(body.push(sedol_check_char(body))),
{
    let s = body.push(sedol_check_char(body));
    lemma_mod10_check_char_digit(sedol_sum(body));
    lemma_scan_all_ok(body, sedol_body_ok(), 0);
    assert forall|j: int| 0 <= j < 7 implies #[trigger] sedol_char_ok(j, s[j]) by {
        if j < 6 {
            assert(s[j] == body[j]);
        }
    }
    lemma_scan_all_ok(s, sedol_ok(), 0);
    assert(s.subrange(0, 6) =~= body);
}

/// An ASCII digit byte.
pub open spec fn is_digit_byte(b: u8) -> bool {
    48 <= b <= 57
}

/// A validated SEDOL, stored as its 7 ASCII bytes.
#[derive(Debug, Clone, Copy, PartialEq, Eq, Hash)]
pub struct Sedol {
    bytes: [u8; 7],
}

impl View for Sedol {
    type V = Seq<u8>;

    closed spec fn view(&self) -> Seq<u8> {
        self.bytes@
    }
}

fn sedol_char_check(i: usize, c: char) -> (r: bool)
    ensures
        r == sedol_char_ok(i as int, c),
{
    if i == 6 {
        is_digit(c)
    } else {
        is_sedol_body(c)
    }
}

impl Sedol {
    /// The number of characters in a SEDOL.
    pub const LENGTH: usize = 7;

    /// Parses and fully validates a SEDOL: exact length, the per-position
    /// character set (a vowel is rejected), and a check digit recomputed
    /// from the body.
    pub fn parse(s: &str) -> (res: Result<Self, ValidationError>)
        ensures
            match res {
                Ok(v) => is_valid_sedol(s@) && v@ == ascii_bytes(s@) && utf8_text(v@) == s@,
                Err(e) => spec_sedol_parse(s@) == Err::<(), ValidationError>(e),
            },
    {
        let found = s.unicode_len();
        if found != 7 {
            return Err(ValidationError::WrongLength { expected: 7, found });
        }
        let ghost cs = s@;
        let mut bytes = [0u8; 7];
        let mut k: usize = 0;
        for c in it: s.chars()
            invariant
                k == it.index(),
                it.seq() == cs,
                cs == s@,
                cs.len() == 7,
                forall|j: int| 0 <= j < k ==> sedol_char_ok(j, #[trigger] cs[j]),
                forall|j: int| 0 <= j < k ==> bytes@[j] == #[trigger] cs[j] as u8,
        {
            assert(c == cs[k as int]);
            if !sedol_char_check(k, c) {
                proof {
                    lemma_scan_skip(cs, sedol_ok(), 0, k as int);
                }
                return Err(ValidationError::InvalidCharacter { position: k + 1, found: c });
            }
            bytes[k] = ascii_byte(c);
            k += 1;
        }
        proof {
            lemma_scan_all_ok(cs, sedol_ok(), 0);
            assert(is_ascii_chars(cs));
            assert(bytes@ =~= ascii_bytes(cs));
            lemma_ascii_text(cs);
        }
        let body = s.substring_char(0, 6);
        proof {
            assert forall|j: int| 0 <= j < 6 implies #[trigger] is_sedol_body_char(body@[j]) by {
                assert(sedol_char_ok(j, cs[j]));
            }
            lemma_scan_all_ok(body@, sedol_body_ok(), 0);
        }
        let expected = match sedol_check_digit(body) {
            Ok(c) => c,
            Err(e) => return Err(e),
        };
        let supplied = bytes[6] as char;
        if expected != supplied {
            return Err(ValidationError::BadCheckDigit { expected, found: supplied });
        }
        Ok(Sedol { bytes })
    }

    /// Validates a SEDOL without constructing one.
    pub fn validate(s: &str) -> (res: Result<(), ValidationError>)
        ensures
            res == spec_sedol_parse(s@),
    {
        match Self::parse(s) {
            Ok(_) => Ok(()),
            Err(e) => Err(e),
        }
    }

    /// Wraps 7 raw bytes as a `Sedol` without any validation.
    pub fn from_bytes_unchecked(bytes: [u8; 7]) -> (r: Self)
        ensures
            r@ == bytes@,
    {
        Sedol { bytes }
    }

    /// The SEDOL as a string slice.
    pub fn as_str(&self) -> (r: &str)
        ensures
            r@ == utf8_text(self@),
    {
        str_from_utf8_or_empty(self.bytes.as_slice())
    }

    /// The SEDOL as its 7 raw bytes.
    pub fn as_bytes(&self) -> (r: &[u8])
        ensures
            r@ == self@,
            r@.len() == 7,
    {
        self.bytes.as_slice()
    }

    /// The six-character body, characters 1–6.
    pub fn body(&self) -> (r: &str)
        ensures
            r@ == utf8_text(self@.subrange(0, 6)),
    {
        str_from_utf8_or_empty(vstd::slice::slice_subrange(self.bytes.as_slice(), 0, 6))
    }

    /// The check digit, character 7.
    pub fn check_digit(&self) -> (r: char)
        ensures
            r == self@[6] as char,
    {
        self.bytes[6] as char
    }

    /// `true` exactly when all six body characters are digits — a legacy,
    /// pre-2004 SEDOL.
    pub fn is_legacy_numeric(&self) -> (r: bool)
        ensures
            r == (forall|j: int| 0 <= j < 6 ==> is_digit_byte(#[trigger] self@[j])),
    {
        let mut i: usize = 0;
        while i < 6
            invariant
                i <= 6,
                forall|j: int| 0 <= j < i ==> is_digit_byte(#[trigger] self@[j]),
            decreases 6 - i,
        {
            if !(48 <= self.bytes[i] && self.bytes[i] <= 57) {
                assert(!is_digit_byte(self@[i as int]));
                return false;
            }
            i += 1;
        }
        true
    }
}

impl core::str::FromStr for Sedol {
    type Err = ValidationError;

    fn from_str(s: &str) -> (res: Result<Self, Self::Err>)
        ensures
            match res {
                Ok(v) => is_valid_sedol(s@) && v@ == ascii_bytes(s@) && utf8_text(v@) == s@,
                Err(e) => spec_sedol_parse(s@) == Err::<(), ValidationError>(e),
            },
    {
        Self::parse(s)
    }
}

impl AsRef<str> for Sedol {
    fn as_ref(&self) -> (r: &str)
        ensures
            r@ == utf8_text(self@),
    {
        self.as_str()
    }
}

} // verus!
