//! WKN — Wertpapierkennnummer, the German national securities number.
//!
//! Exactly 6 characters, each an ASCII digit or upper-case letter other than
//! `I` and `O`. A WKN has no segments and no check digit.
use vstd::prelude::*;
use vstd::utf8::is_ascii_chars;
use crate::charset::{ascii_byte, char_scan, is_alnum, is_alnum_char, lemma_scan_all_ok, lemma_scan_skip};
use crate::errors::ValidationError;
use crate::sedol::is_digit_byte;
use crate::text::{ascii_bytes, lemma_ascii_text, str_from_utf8_or_empty, utf8_text};

verus! {

/// A WKN character: a digit or upper-case letter, but not `I` or `O`.
pub open spec fn is_wkn_char(c: char) -> bool {
    is_alnum_char(c) && c != 'I' && c != 'O'
}

/// Every character of a WKN is a WKN character.
pub open spec fn wkn_ok() -> spec_fn(int, char) -> bool {
    |i: int, c: char| is_wkn_char(c)
}

/// The verdict of [`Wkn::parse`] on `s`.
pub open spec fn spec_wkn_parse(s: Seq<char>) -> Result<(), ValidationError> {
    if s.len() != 6 {
        Err(ValidationError::WrongLength { expected: 6, found: s.len() as usize })
    } else {
        char_scan(s, wkn_ok())
    }
}

/// `s` is a valid WKN.
pub open spec fn is_valid_wkn(s: Seq<char>) -> bool {
    spec_wkn_parse(s) is Ok
}

/// A validated WKN, stored as its 6 ASCII bytes.
#[derive(Debug, Clone, Copy, PartialEq, Eq, Hash)]
pub struct Wkn {
    bytes: [u8; 6],
}

impl View for Wkn {
    type V = Seq<u8>;

    closed spec fn view(&self) -> Seq<u8> {
        self.bytes@
    }
}

impl Wkn {
    /// The number of characters in a WKN.
    pub const LENGTH: usize = 6;

    /// Parses and validates a WKN: exact length and the character set.
    pub fn parse(s: &str) -> (res: Result<Self, ValidationError>)
        ensures
            match res {
                Ok(v) => is_valid_wkn(s@) && v@ == ascii_bytes(s@) && utf8_text(v@) == s@,
                Err(e) => spec_wkn_parse(s@) == Err::<(), ValidationError>(e),
            },
    {
        let found = s.unicode_len();
        if found != 6 {
            return Err(ValidationError::WrongLength { expected: 6, found });
        }
        let ghost cs = s@;
        let mut bytes = [0u8; 6];
        let mut k: usize = 0;
        for c in it: s.chars()
            invariant
                k == it.index(),
                it.seq() == cs,
                cs == s@,
                cs.len() == 6,
                forall|j: int| 0 <= j < k ==> is_wkn_char(#[trigger] cs[j]),
                forall|j: int| 0 <= j < k ==> bytes@[j] == #[trigger] cs[j] as u8,
        {
            assert(c == cs[k as int]);
            if !(is_alnum(c) && c != 'I' && c != 'O') {
                proof {
                    lemma_scan_skip(cs, wkn_ok(), 0, k as int);
                }
                return Err(ValidationError::InvalidCharacter { position: k + 1, found: c });
            }
            bytes[k] = ascii_byte(c);
            k += 1;
        }
        proof {
            lemma_scan_all_ok(cs, wkn_ok(), 0);
            assert(is_ascii_chars(cs));
            assert(bytes@ =~= ascii_bytes(cs));
            lemma_ascii_text(cs);
        }
        Ok(Wkn { bytes })
    }

    /// Validates a WKN without constructing one.
    pub fn validate(s: &str) -> (res: Result<(), ValidationError>)
        ensures
            res == spec_wkn_parse(s@),
    {
        match Self::parse(s) {
            Ok(_) => Ok(()),
            Err(e) => Err(e),
        }
    }

    /// Wraps 6 raw bytes as a `Wkn` without any validation.
    pub fn from_bytes_unchecked(bytes: [u8; 6]) -> (r: Self)
        ensures
            r@ == bytes@,
    {
        Wkn { bytes }
    }

    /// The WKN as a string slice.
    pub fn as_str(&self) -> (r: &str)
        ensures
            r@ == utf8_text(self@),
    {
        str_from_utf8_or_empty(self.bytes.as_slice())
    }

    /// The WKN as its 6 raw bytes.
    pub fn as_bytes(&self) -> (r: &[u8])
        ensures
            r@ == self@,
    {
        self.bytes.as_slice()
    }

    /// `true` exactly when every character is a digit.
    pub fn is_numeric(&self) -> (r: bool)
        ensures
            r == (forall|j: int| 0 <= j < 6 ==> is_digit_byte(#[trigger] self@[j])),
    {
        let mut i: usize = 0;
        while i < 6
            invariant
                i <= 6,
                forall|j: int| 0 <= j < i ==> is_digit_byte(#[trigger] self@[j]),
            decreases 6 - i,
        {
            if !(48 <= self.bytes[i] && self.bytes[i] <= 57) {
                assert(!is_digit_byte(self@[i as int]));
                return false;
            }
            i += 1;
        }
        true
    }
}

impl core::str::FromStr for Wkn {
    type Err = ValidationError;

    fn from_str(s: &str) -> (res: Result<Self, Self::Err>)
        ensures
            match res {
                Ok(v) => is_valid_wkn(s@) && v@ == ascii_bytes(s@) && utf8_text(v@) == s@,
                Err(e) => spec_wkn_parse(s@) == Err::<(), ValidationError>(e),
            },
    {
        Self::parse(s)
    }
}

impl AsRef<str> for Wkn {
    fn as_ref(&self) -> (r: &str)
        ensures
            r@ == utf8_text(self@),
    {
        self.as_str()
    }
}

} // verus!
