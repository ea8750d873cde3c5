//! CFI — Classification of Financial Instruments (ISO 10962).
//!
//! Exactly 6 upper-case letters: a category `[0]` (one of the 14 letters
//! `E C D R O F S H I J K L T M`), a group `[1]`, and four attributes
//! `[2..6]`. Parsing validates structure and category only; the group and
//! attributes are exposed verbatim and not checked against the per-category
//! tables. A CFI has no check digit.
use vstd::prelude::*;
use vstd::utf8::is_ascii_chars;
use crate::charset::{ascii_byte, char_scan, is_upper, is_upper_char, lemma_scan_all_ok, lemma_scan_skip};
use crate::errors::ValidationError;
use crate::text::{ascii_bytes, lemma_ascii_text, str_from_utf8_or_empty, utf8_text};

verus! {

/// The name of an ISO 10962 category letter, if `c` is one.
pub open spec fn cfi_category_name(c: char) -> Option<&'static str> {
    if c == 'E' {
        Some("Equities")
    } else if c == 'C' {
        Some("Collective investment vehicles")
    } else if c == 'D' {
        Some("Debt instruments")
    } else if c == 'R' {
        Some("Entitlements (rights)")
    } else if c == 'O' {
        Some("Listed options")
    } else if c == 'F' {
        Some("Futures")
    } else if c == 'S' {
        Some("Swaps")
    } else if c == 'H' {
        Some("Non-listed and complex listed options")
    } else if c == 'I' {
        Some("Spot")
    } else if c == 'J' {
        Some("Forwards")
    } else if c == 'K' {
        Some("Strategies")
    } else if c == 'L' {
        Some("Financing")
    } else if c == 'T' {
        Some("Referential instruments")
    } else if c == 'M' {
        Some("Others (miscellaneous)")
    } else {
        None
    }
}

/// Every character of a CFI is an upper-case letter.
pub open spec fn cfi_ok() -> spec_fn(int, char) -> bool {
    |i: int, c: char| is_upper_char(c)
}

/// The verdict of [`Cfi::parse`] on `s`.
pub open spec fn spec_cfi_parse(s: Seq<char>) -> Result<(), ValidationError> {
    if s.len() != 6 {
        Err(ValidationError::WrongLength { expected: 6, found: s.len() as usize })
    } else if char_scan(s, cfi_ok()) is Err {
        char_scan(s, cfi_ok())
    } else if cfi_category_name(s[0]) is None {
        Err(ValidationError::Structure { rule: "CFI category must be one of E C D R O F S H I J K L T M" })
    } else {
        Ok(())
    }
}

/// `s` is a structurally valid CFI code.
pub open spec fn is_valid_cfi(s: Seq<char>) -> bool {
    spec_cfi_parse(s) is Ok
}

/// A structurally valid CFI code, stored as its 6 ASCII bytes.
#[derive(Debug, Clone, Copy, PartialEq, Eq, Hash)]
pub struct Cfi {
    bytes: [u8; 6],
}

impl View for Cfi {
    type V = Seq<u8>;

    closed spec fn view(&self) -> Seq<u8> {
        self.bytes@
    }
}

fn category_name_of(c: char) -> (r: Option<&'static str>)
    ensures
        r == cfi_category_name(c),
{
    match c {
        'E' => Some("Equities"),
        'C' => Some("Collective investment vehicles"),
        'D' => Some("Debt instruments"),
        'R' => Some("Entitlements (rights)"),
        'O' => Some("Listed options"),
        'F' => Some("Futures"),
        'S' => Some("Swaps"),
        'H' => Some("Non-listed and complex listed options"),
        'I' => Some("Spot"),
        'J' => Some("Forwards"),
        'K' => Some("Strategies"),
        'L' => Some("Financing"),
        'T' => Some("Referential instruments"),
        'M' => Some("Others (miscellaneous)"),
        _ => None,
    }
}

impl Cfi {
    /// The number of characters in a CFI code.
    pub const LENGTH: usize = 6;

    /// Parses a CFI code: exact length, all upper-case letters, and a
    /// recognised category letter first.
    pub fn parse(s: &str) -> (res: Result<Self, ValidationError>)
        ensures
            match res {
                Ok(v) => is_valid_cfi(s@) && v@ == ascii_bytes(s@) && utf8_text(v@) == s@,
                Err(e) => spec_cfi_parse(s@) == Err::<(), ValidationError>(e),
            },
    {
        let found = s.unicode_len();
        if found != 6 {
            return Err(ValidationError::WrongLength { expected: 6, found });
        }
        let ghost cs = s@;
        let mut bytes = [0u8; 6];
        let mut k: usize = 0;
        for c in it: s.chars()
            invariant
                k == it.index(),
                it.seq() == cs,
                cs == s@,
                cs.len() == 6,
                forall|j: int| 0 <= j < k ==> is_upper_char(#[trigger] cs[j]),
                forall|j: int| 0 <= j < k ==> bytes@[j] == #[trigger] cs[j] as u8,
        {
            assert(c == cs[k as int]);
            if !is_upper(c) {
                proof {
                    lemma_scan_skip(cs, cfi_ok(), 0, k as int);
                }
                return Err(ValidationError::InvalidCharacter { position: k + 1, found: c });
            }
            bytes[k] = ascii_byte(c);
            k += 1;
        }
        proof {
            lemma_scan_all_ok(cs, cfi_ok(), 0);
            assert(is_ascii_chars(cs));
            assert(bytes@ =~= ascii_bytes(cs));
            lemma_ascii_text(cs);
        }
        if category_name_of(bytes[0] as char).is_none() {
            return Err(
                ValidationError::Structure {
                    rule: "CFI category must be one of E C D R O F S H I J K L T M",
                },
            );
        }
        Ok(Cfi { bytes })
    }

    /// Validates a CFI code without constructing one.
    pub fn validate(s: &str) -> (res: Result<(), ValidationError>)
        ensures
            res == spec_cfi_parse(s@),
    {
        match Self::parse(s) {
            Ok(_) => Ok(()),
            Err(e) => Err(e),
        }
    }

    /// Wraps 6 raw bytes as a `Cfi` without any validation.
    pub fn from_bytes_unchecked(bytes: [u8; 6]) -> (r: Self)
        ensures
            r@ == bytes@,
    {
        Cfi { bytes }
    }

    /// The CFI code as a string slice.
    pub fn as_str(&self) -> (r: &str)
        ensures
            r@ == utf8_text(self@),
    {
        str_from_utf8_or_empty(self.bytes.as_slice())
    }

    /// The CFI code as its 6 raw bytes.
    pub fn as_bytes(&self) -> (r: &[u8])
        ensures
            r@ == self@,
    {
        self.bytes.as_slice()
    }

    /// The category letter, character 1.
    pub fn category(&self) -> (r: char)
        ensures
            r == self@[0] as char,
    {
        self.bytes[0] as char
    }

    /// The English name of the category, or `""` if the category letter is
    /// not a recognised one.
    pub fn category_name(&self) -> (r: &'static str)
        ensures
            r == (match cfi_category_name(self@[0] as char) {
                Some(name) => name,
                None => "",
            }),
    {
        match category_name_of(self.bytes[0] as char) {
            Some(name) => name,
            None => "",
        }
    }

    /// The group letter, character 2.
    pub fn group(&self) -> (r: char)
        ensures
            r == self@[1] as char,
    {
        self.bytes[1] as char
    }

    /// The four attribute letters, characters 3–6.
    pub fn attributes(&self) -> (r: &str)
        ensures
            r@ == utf8_text(self@.subrange(2, 6)),
    {
        str_from_utf8_or_empty(vstd::slice::slice_subrange(self.bytes.as_slice(), 2, 6))
    }
}

impl core::str::FromStr for Cfi {
    type Err = ValidationError;

    fn from_str(s: &str) -> (res: Result<Self, Self::Err>)
        ensures
            match res {
                Ok(v) => is_valid_cfi(s@) && v@ == ascii_bytes(s@) && utf8_text(v@) == s@,
                Err(e) => spec_cfi_parse(s@) == Err::<(), ValidationError>(e),
            },
    {
        Self::parse(s)
    }
}

impl AsRef<str> for Cfi {
    fn as_ref(&self) -> (r: &str)
        ensures
            r@ == utf8_text(self@),
    {
        self.as_str()
    }
}

} // verus!
