//! BIC — Business Identifier Code (ISO 9362), the SWIFT address of a
//! financial institution.
//!
//! Either 8 characters (a primary office) or 11 (with a branch suffix): a
//! four-letter institution code `[0..4]`, an ISO 3166-1 country code
//! `[4..6]`, a location code `[6..8]` over `[A-Z0-9]`, and in an
//! 11-character BIC a branch code `[8..11]` over `[A-Z0-9]`. A BIC has no
//! check digit; parsing enforces structure only.
use vstd::prelude::*;
use vstd::utf8::is_ascii_chars;
use crate::charset::{ascii_byte, char_scan, is_alnum, is_alnum_char, is_upper, is_upper_char, lemma_scan_all_ok, lemma_scan_none_iff, lemma_scan_skip};
use crate::country::{is_iso_country, spec_is_iso_country};
use crate::errors::ValidationError;
use crate::text::{ascii_bytes, lemma_ascii_text, str_from_utf8_or_empty, utf8_text};

verus! {

/// Character set of position `i` of a BIC: letters in the institution and
/// country codes, `[A-Z0-9]` after them.
pub open spec fn bic_char_ok(i: int, c: char) -> bool {
    if i < 6 {
        is_upper_char(c)
    } else {
        is_alnum_char(c)
    }
}

/// The per-position character check of a BIC.
pub open spec fn bic_ok() -> spec_fn(int, char) -> bool {
    |i: int, c: char| bic_char_ok(i, c)
}

/// The verdict of [`Bic::parse`] on `s`.
pub open spec fn spec_bic_parse(s: Seq<char>) -> Result<(), ValidationError> {
    if s.len() != 8 && s.len() != 11 {
        Err(ValidationError::Structure { rule: "BIC length must be 8 or 11" })
    } else if char_scan(s, bic_ok()) is Err {
        char_scan(s, bic_ok())
    } else if !spec_is_iso_country(s.subrange(4, 6)) {
        Err(ValidationError::InvalidCountryCode)
    } else {
        Ok(())
    }
}

/// `s` is a valid BIC.
pub open spec fn is_valid_bic(s: Seq<char>) -> bool {
    spec_bic_parse(s) is Ok
}

/// What makes a BIC: 8 or 11 characters, four upper-case letters of
/// institution code, an assigned ISO 3166-1 country code of two upper-case
/// letters, then a location code and an optional branch code of upper-case
/// letters and digits.
pub proof fn law_bic_structure(s: Seq<char>)
    ensures
        is_valid_bic(s) <==> {
            &&& s.len() == 8 || s.len() == 11
            &&& forall|j: int| 0 <= j < 6 ==> 'A' <= #[trigger] s[j] <= 'Z'
            &&& forall|j: int| 6 <= j < s.len() ==> ('A' <= #[trigger] s[j] <= 'Z' || '0' <= s[j] <= '9')
            &&& spec_is_iso_country(s.subrange(4, 6))
        },
{
    if s.len() == 8 || s.len() == 11 {
        lemma_scan_none_iff(s, bic_ok(), 0);
        if is_valid_bic(s) {
            assert forall|j: int| 0 <= j < s.len() implies #[trigger] bic_char_ok(j, s[j]) by {
                assert(bic_ok()(j, s[j]));
            }
            assert forall|j: int| 0 <= j < 6 implies 'A' <= #[trigger] s[j] <= 'Z' by {
                assert(bic_char_ok(j, s[j]));
            }
            assert forall|j: int| 6 <= j < s.len() implies ('A' <= #[trigger] s[j] <= 'Z' || '0' <= s[j]
                <= '9') by {
                assert(bic_char_ok(j, s[j]));
            }
        }
        if (forall|j: int| 0 <= j < 6 ==> 'A' <= #[trigger] s[j] <= 'Z') && (forall|j: int|
            6 <= j < s.len() ==> ('A' <= #[trigger] s[j] <= 'Z' || '0' <= s[j] <= '9')) {
            assert forall|j: int| 0 <= j < s.len() implies #[trigger] bic_ok()(j, s[j]) by {
                if j < 6 {
                    assert('A' <= s[j] <= 'Z');
                } else {
                    assert('A' <= s[j] <= 'Z' || '0' <= s[j] <= '9');
                }
            }
            assert(char_scan(s, bic_ok()) is Ok);
        }
    }
}

/// The bytes of a BIC's text: the first `len` stored bytes, or nothing when
/// `len` exceeds the storage.
pub open spec fn stored_text_bytes(stored: Seq<u8>, len: u8) -> Seq<u8> {
    if len <= stored.len() {
        stored.subrange(0, len as int)
    } else {
        Seq::empty()
    }
}

/// `n` zero bytes.
pub open spec fn zero_bytes(n: nat) -> Seq<u8> {
    Seq::new(n, |i: int| 0u8)
}

/// A validated Business Identifier Code: its 8 or 11 ASCII bytes stored in
/// an 11-byte buffer with a zeroed tail, and its length.
#[derive(Debug, Clone, Copy, PartialEq, Eq, Hash)]
pub struct Bic {
    bytes: [u8; 11],
    len: u8,
}

impl View for Bic {
    /// The stored 11 bytes and the length.
    type V = (Seq<u8>, u8);

    closed spec fn view(&self) -> (Seq<u8>, u8) {
        (self.bytes@, self.len)
    }
}

fn bic_char_check(i: usize, c: char) -> (r: bool)
    ensures
        r == bic_char_ok(i as int, c),
{
    if i < 6 {
        is_upper(c)
    } else {
        is_alnum(c)
    }
}

impl Bic {
    /// The length of a BIC without a branch code.
    pub const SHORT_LENGTH: usize = 8;

    /// The length of a BIC with a branch code.
    pub const MAX_LENGTH: usize = 11;

    /// Parses and validates a BIC: a length of 8 or 11, the per-position
    /// character set, and a recognised ISO 3166-1 country code.
    pub fn parse(s: &str) -> (res: Result<Self, ValidationError>)
        ensures
            match res {
                Ok(v) => {
                    &&& is_valid_bic(s@)
                    &&& v@.0 == ascii_bytes(s@) + zero_bytes((11 - s@.len()) as nat)
                    &&& v@.1 == s@.len()
                    &&& utf8_text(stored_text_bytes(v@.0, v@.1)) == s@
                },
                Err(e) => spec_bic_parse(s@) == Err::<(), ValidationError>(e),
            },
    {
        let found = s.unicode_len();
        if found != 8 && found != 11 {
            return Err(ValidationError::Structure { rule: "BIC length must be 8 or 11" });
        }
        let ghost cs = s@;
        let mut bytes = [0u8; 11];
        let mut k: usize = 0;
        for c in it: s.chars()
            invariant
                k == it.index(),
                it.seq() == cs,
                cs == s@,
                cs.len() == found,
                found == 8 || found == 11,
                forall|j: int| 0 <= j < k ==> bic_char_ok(j, #[trigger] cs[j]),
                forall|j: int| 0 <= j < k ==> bytes@[j] == #[trigger] cs[j] as u8,
                forall|j: int| found <= j < 11 ==> bytes@[j] == 0,
        {
            assert(c == cs[k as int]);
            if !bic_char_check(k, c) {
                proof {
                    lemma_scan_skip(cs, bic_ok(), 0, k as int);
                }
                return Err(ValidationError::InvalidCharacter { position: k + 1, found: c });
            }
            bytes[k] = ascii_byte(c);
            k += 1;
        }
        proof {
            lemma_scan_all_ok(cs, bic_ok(), 0);
            assert(is_ascii_chars(cs));
            assert(bytes@ =~= ascii_bytes(cs) + zero_bytes((11 - found) as nat));
            assert(bytes@.subrange(0, found as int) =~= ascii_bytes(cs));
            lemma_ascii_text(cs);
        }
        // Characters 5-6 must be a recognised ISO 3166-1 alpha-2 code.
        if !is_iso_country(s.substring_char(4, 6)) {
            return Err(ValidationError::InvalidCountryCode);
        }
        Ok(Bic { bytes, len: found as u8 })
    }

    /// Validates a BIC without constructing one.
    pub fn validate(s: &str) -> (res: Result<(), ValidationError>)
        ensures
            res == spec_bic_parse(s@),
    {
        match Self::parse(s) {
            Ok(_) => Ok(()),
            Err(e) => Err(e),
        }
    }

    /// Wraps 11 raw bytes and a length as a `Bic` without any validation.
    pub fn from_bytes_unchecked(bytes: [u8; 11], len: u8) -> (r: Self)
        ensures
            r@ == (bytes@, len),
    {
        Bic { bytes, len }
    }

    /// The number of characters in this BIC: 8 or 11 for a parsed one.
    pub fn len(&self) -> (r: usize)
        ensures
            r == self@.1,
    {
        self.len as usize
    }

    /// `true` if the length is zero — never the case for a parsed BIC.
    pub fn is_empty(&self) -> (r: bool)
        ensures
            r == (self@.1 == 0),
    {
        self.len == 0
    }

    /// The BIC as a string slice.
    pub fn as_str(&self) -> (r: &str)
        ensures
            r@ == utf8_text(stored_text_bytes(self@.0, self@.1)),
    {
        str_from_utf8_or_empty(self.as_bytes())
    }

    /// The BIC's bytes: the first `len` stored bytes.
    pub fn as_bytes(&self) -> (r: &[u8])
        ensures
            r@ == stored_text_bytes(self@.0, self@.1),
    {
        if self.len as usize <= 11 {
            vstd::slice::slice_subrange(self.bytes.as_slice(), 0, self.len as usize)
        } else {
            vstd::slice::slice_subrange(self.bytes.as_slice(), 0, 0)
        }
    }

    /// The four-letter institution code, characters 1–4.
    pub fn institution(&self) -> (r: &str)
        ensures
            r@ == utf8_text(self@.0.subrange(0, 4)),
    {
        str_from_utf8_or_empty(vstd::slice::slice_subrange(self.bytes.as_slice(), 0, 4))
    }

    /// The two-letter country code, characters 5–6.
    pub fn country_code(&self) -> (r: &str)
        ensures
            r@ == utf8_text(self@.0.subrange(4, 6)),
    {
        str_from_utf8_or_empty(vstd::slice::slice_subrange(self.bytes.as_slice(), 4, 6))
    }

    /// The two-character location code, characters 7–8.
    pub fn location_code(&self) -> (r: &str)
        ensures
            r@ == utf8_text(self@.0.subrange(6, 8)),
    {
        str_from_utf8_or_empty(vstd::slice::slice_subrange(self.bytes.as_slice(), 6, 8))
    }

    /// The three-character branch code of an 11-character BIC, characters
    /// 9–11; `None` for an 8-character BIC.
    pub fn branch_code(&self) -> (r: Option<&str>)
        ensures
            match r {
                Some(b) => self@.1 == 11 && b@ == utf8_text(self@.0.subrange(8, 11)),
                None => self@.1 != 11,
            },
    {
        if self.has_branch() {
            Some(str_from_utf8_or_empty(vstd::slice::slice_subrange(self.bytes.as_slice(), 8, 11)))
        } else {
            None
        }
    }

    /// `true` if this is an 11-character BIC with a branch code.
    pub fn has_branch(&self) -> (r: bool)
        ensures
            r == (self@.1 == 11),
    {
        self.len() == 11
    }

    /// `true` if the second location character is `0`: a test or training BIC.
    pub fn is_test_bic(&self) -> (r: bool)
        ensures
            r == (self@.0[7] == 48),
    {
        self.bytes[7] == 48
    }

    /// `true` if the second location character is `1`: a passive SWIFT
    /// participant.
    pub fn is_passive(&self) -> (r: bool)
        ensures
            r == (self@.0[7] == 49),
    {
        self.bytes[7] == 49
    }

    /// The second location character, character 8, which carries the
    /// test/passive convention.
    pub fn location_status(&self) -> (r: char)
        ensures
            r == self@.0[7] as char,
    {
        self.bytes[7] as char
    }
}

impl core::str::FromStr for Bic {
    type Err = ValidationError;

    fn from_str(s: &str) -> (res: Result<Self, Self::Err>)
        ensures
            match res {
                Ok(v) => {
                    &&& is_valid_bic(s@)
                    &&& v@.0 == ascii_bytes(s@) + zero_bytes((11 - s@.len()) as nat)
                    &&& v@.1 == s@.len()
                    &&& utf8_text(stored_text_bytes(v@.0, v@.1)) == s@
                },
                Err(e) => spec_bic_parse(s@) == Err::<(), ValidationError>(e),
            },
    {
        Self::parse(s)
    }
}

impl AsRef<str> for Bic {
    fn as_ref(&self) -> (r: &str)
        ensures
            r@ == utf8_text(stored_text_bytes(self@.0, self@.1)),
    {
        self.as_str()
    }
}

} // verus!
