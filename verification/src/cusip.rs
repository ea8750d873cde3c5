//! CUSIP — Committee on Uniform Securities Identification Procedures
//! (ANSI X9.6), and CINS numbers, which share its structure.
//!
//! Exactly 9 characters: the issuer `[0..6]` and issue `[6..8]` segments over
//! `[A-Z0-9*@#]`, and a check digit `[8]` — the "modulus 10 double add
//! double" of the 8-character body, recomputed and verified on parse. A CINS
//! number starts with a letter, a domestic CUSIP with a digit.
use vstd::prelude::*;
use vstd::utf8::is_ascii_chars;
use crate::charset::{ascii_byte, lemma_mod10_check_char_digit, char_scan, is_digit, is_digit_char, lemma_scan_all_ok, lemma_scan_none_iff, lemma_scan_skip};
use crate::checkdigit::{cusip_sum, spec_cusip_check_digit, cusip_body_ok, cusip_check_char, cusip_check_digit, is_cusip_body, is_cusip_body_char};
use crate::errors::ValidationError;
use crate::text::{ascii_bytes, lemma_ascii_text, str_from_utf8_or_empty, utf8_text};

verus! {

/// Character set of position `i` of a CUSIP: the body alphabet, a digit last.
pub open spec fn cusip_char_ok(i: int, c: char) -> bool {
    if i == 8 {
        is_digit_char(c)
    } else {
        is_cusip_body_char(c)
    }
}

/// The per-position character check of a CUSIP.
pub open spec fn cusip_ok() -> spec_fn(int, char) -> bool {
    |i: int, c: char| cusip_char_ok(i, c)
}

/// The verdict of [`Cusip::parse`] on `s`.
pub open spec fn spec_cusip_parse(s: Seq<char>) -> Result<(), ValidationError> {
    if s.len() != 9 {
        Err(ValidationError::WrongLength { expected: 9, found: s.len() as usize })
    } else if char_scan(s, cusip_ok()) is Err {
        char_scan(s, cusip_ok())
    } else if cusip_check_char(s.subrange(0, 8)) != s[8] {
        Err(ValidationError::BadCheckDigit { expected: cusip_check_char(s.subrange(0, 8)), found: s[8] })
    } else {
        Ok(())
    }
}

/// `s` is a valid CUSIP (or CINS).
pub open spec fn is_valid_cusip(s: Seq<char>) -> bool {
    spec_cusip_parse(s) is Ok
}

/// What a valid CUSIP is made of: nine ASCII characters from the body
/// alphabet with a digit last, the last being the body's check digit.
pub proof fn lemma_valid_cusip_facts(s: Seq<char>)
    requires
        is_valid_cusip(s),
    ensures
        s.len() == 9,
        forall|j: int| 0 <= j < 8 ==> #[trigger] is_cusip_body_char(s[j]),
        is_digit_char(s[8]),
        is_ascii_chars(s),
        cusip_check_char(s.subrange(0, 8)) == s[8],
{
    lemma_scan_none_iff(s, cusip_ok(), 0);
    assert forall|j: int| 0 <= j < 9 implies #[trigger] cusip_char_ok(j, s[j]) by {
        assert(cusip_ok()(j, s[j]));
    }
    assert forall|j: int| 0 <= j < 8 implies #[trigger] is_cusip_body_char(s[j]) by {
        assert(cusip_char_ok(j, s[j]));
    }
    assert(cusip_char_ok(8, s[8]));
    assert forall|j: int| 0 <= j < 9 implies '\0' <= #[trigger] s[j] <= '\u{7f}' by {
        assert(cusip_char_ok(j, s[j]));
    }
}

/// A CUSIP body completed with the check digit that `cusip_check_digit`
/// computes for it always parses.
pub proof fn law_cusip_completion(body: Seq<char>)
    requires
        body.len() == 8,
        forall|j: int| 0 <= j < 8 ==> #[trigger] is_cusip_body_char(body[j]),
    ensures
        spec_cusip_check_digit(body) == Ok::<char, ValidationError>(cusip_check_char(body)),
        is_valid_cusip(body.push(cusip_check_char(body))),
{
    let s = body.push(cusip_check_char(body));
    lemma_mod10_check_char_digit(cusip_sum(body));
    lemma_scan_all_ok(body, cusip_body_ok(), 0);
    assert forall|j: int| 0 <= j < 9 implies #[trigger] cusip_char_ok(j, s[j]) by {
        if j < 8 {
            assert(s[j] == body[j]);
        }
    }
    lemma_scan_all_ok(s, cusip_ok(), 0);
    assert(s.subrange(0, 8) =~= body);
}

/// An upper-case ASCII letter byte.
pub open spec fn is_upper_byte(b: u8) -> bool {
    65 <= b <= 90
}

/// The CINS issuing region designated by a leading letter.
pub open spec fn cins_region_of(c: char) -> Option<&'static str> {
    if c == 'A' {
        Some("Austria")
    } else if c == 'B' {
        Some("Belgium")
    } else if c == 'C' {
        Some("Canada")
    } else if c == 'D' {
        Some("Germany")
    } else if c == 'E' {
        Some("Spain")
    } else if c == 'F' {
        Some("France")
    } else if c == 'G' {
        Some("United Kingdom")
    } else if c == 'H' {
        Some("Switzerland")
    } else if c == 'J' {
        Some("Japan")
    } else if c == 'K' {
        Some("Denmark")
    } else if c == 'L' {
        Some("Luxembourg")
    } else if c == 'M' {
        Some("Middle East")
    } else if c == 'N' {
        Some("Netherlands")
    } else if c == 'P' {
        Some("South America")
    } else if c == 'Q' {
        Some("Australia")
    } else if c == 'R' {
        Some("Norway")
    } else if c == 'S' {
        Some("South Africa")
    } else if c == 'T' {
        Some("Italy")
    } else if c == 'U' {
        Some("United States")
    } else if c == 'V' {
        Some("Africa-Other")
    } else if c == 'W' {
        Some("Sweden")
    } else if c == 'X' {
        Some("Europe-Other")
    } else if c == 'Y' {
        Some("Asia")
    } else {
        None
    }
}

/// A validated CUSIP (or CINS) number, stored as its 9 ASCII bytes.
#[derive(Debug, Clone, Copy, PartialEq, Eq, Hash)]
pub struct Cusip {
    bytes: [u8; 9],
}

impl View for Cusip {
    type V = Seq<u8>;

    closed spec fn view(&self) -> Seq<u8> {
        self.bytes@
    }
}

fn cusip_char_check(i: usize, c: char) -> (r: bool)
    ensures
        r == cusip_char_ok(i as int, c),
{
    if i == 8 {
        is_digit(c)
    } else {
        is_cusip_body(c)
    }
}

impl Cusip {
    /// The number of characters in a CUSIP.
    pub const LENGTH: usize = 9;

    /// Parses and fully validates a CUSIP: exact length, the per-position
    /// character set, and a check digit recomputed from the body.
    pub fn parse(s: &str) -> (res: Result<Self, ValidationError>)
        ensures
            match res {
                Ok(v) => is_valid_cusip(s@) && v@ == ascii_bytes(s@) && utf8_text(v@) == s@,
                Err(e) => spec_cusip_parse(s@) == Err::<(), ValidationError>(e),
            },
    {
        let found = s.unicode_len();
        if found != 9 {
            return Err(ValidationError::WrongLength { expected: 9, found });
        }
        let ghost cs = s@;
        let mut bytes = [0u8; 9];
        let mut k: usize = 0;
        for c in it: s.chars()
            invariant
                k == it.index(),
                it.seq() == cs,
                cs == s@,
                cs.len() == 9,
                forall|j: int| 0 <= j < k ==> cusip_char_ok(j, #[trigger] cs[j]),
                forall|j: int| 0 <= j < k ==> bytes@[j] == #[trigger] cs[j] as u8,
        {
            assert(c == cs[k as int]);
            if !cusip_char_check(k, c) {
                proof {
                    lemma_scan_skip(cs, cusip_ok(), 0, k as int);
                }
                return Err(ValidationError::InvalidCharacter { position: k + 1, found: c });
            }
            bytes[k] = ascii_byte(c);
            k += 1;
        }
        proof {
            lemma_scan_all_ok(cs, cusip_ok(), 0);
            assert(is_ascii_chars(cs));
            assert(bytes@ =~= ascii_bytes(cs));
            lemma_ascii_text(cs);
        }
        let body = s.substring_char(0, 8);
        proof {
            assert forall|j: int| 0 <= j < 8 implies #[trigger] is_cusip_body_char(body@[j]) by {
                assert(cusip_char_ok(j, cs[j]));
            }
            lemma_scan_all_ok(body@, cusip_body_ok(), 0);
        }
        let expected = match cusip_check_digit(body) {
            Ok(c) => c,
            Err(e) => return Err(e),
        };
        let supplied = bytes[8] as char;
        if expected != supplied {
            return Err(ValidationError::BadCheckDigit { expected, found: supplied });
        }
        Ok(Cusip { bytes })
    }

    /// Validates a CUSIP without constructing one.
    pub fn validate(s: &str) -> (res: Result<(), ValidationError>)
        ensures
            res == spec_cusip_parse(s@),
    {
        match Self::parse(s) {
            Ok(_) => Ok(()),
            Err(e) => Err(e),
        }
    }

    /// Wraps 9 raw bytes as a `Cusip` without any validation.
    pub fn from_bytes_unchecked(bytes: [u8; 9]) -> (r: Self)
        ensures
            r@ == bytes@,
    {
        Cusip { bytes }
    }

    /// The CUSIP as a string slice.
    pub fn as_str(&self) -> (r: &str)
        ensures
            r@ == utf8_text(self@),
    {
        str_from_utf8_or_empty(self.bytes.as_slice())
    }

    /// The CUSIP as its 9 raw bytes.
    pub fn as_bytes(&self) -> (r: &[u8])
        ensures
            r@ == self@,
    {
        self.bytes.as_slice()
    }

    /// The six-character issuer segment, characters 1–6.
    pub fn issuer(&self) -> (r: &str)
        ensures
            r@ == utf8_text(self@.subrange(0, 6)),
    {
        str_from_utf8_or_empty(vstd::slice::slice_subrange(self.bytes.as_slice(), 0, 6))
    }

    /// The two-character issue segment, characters 7–8.
    pub fn issue(&self) -> (r: &str)
        ensures
            r@ == utf8_text(self@.subrange(6, 8)),
    {
        str_from_utf8_or_empty(vstd::slice::slice_subrange(self.bytes.as_slice(), 6, 8))
    }

    /// The check digit, character 9.
    pub fn check_digit(&self) -> (r: char)
        ensures
            r == self@[8] as char,
    {
        self.bytes[8] as char
    }

    /// `true` if this is a CINS number: its first character is a letter.
    pub fn is_cins(&self) -> (r: bool)
        ensures
            r == is_upper_byte(self@[0]),
    {
        65 <= self.bytes[0] && self.bytes[0] <= 90
    }

    /// `true` if this is a domestic CUSIP — the complement of [`Cusip::is_cins`].
    pub fn is_domestic(&self) -> (r: bool)
        ensures
            r == !is_upper_byte(self@[0]),
    {
        !self.is_cins()
    }

    /// The CINS issuing region of this identifier: `None` for a domestic
    /// CUSIP and for a leading letter outside the CINS table.
    pub fn cins_region(&self) -> (r: Option<&'static str>)
        ensures
            r == (if is_upper_byte(self@[0]) { cins_region_of(self@[0] as char) } else { None }),
    {
        if !self.is_cins() {
            return None;
        }
        match self.bytes[0] as char {
            'A' => Some("Austria"),
            'B' => Some("Belgium"),
            'C' => Some("Canada"),
            'D' => Some("Germany"),
            'E' => Some("Spain"),
            'F' => Some("France"),
            'G' => Some("United Kingdom"),
            'H' => Some("Switzerland"),
            'J' => Some("Japan"),
            'K' => Some("Denmark"),
            'L' => Some("Luxembourg"),
            'M' => Some("Middle East"),
            'N' => Some("Netherlands"),
            'P' => Some("South America"),
            'Q' => Some("Australia"),
            'R' => Some("Norway"),
            'S' => Some("South Africa"),
            'T' => Some("Italy"),
            'U' => Some("United States"),
            'V' => Some("Africa-Other"),
            'W' => Some("Sweden"),
            'X' => Some("Europe-Other"),
            'Y' => Some("Asia"),
            _ => None,
        }
    }
}

impl core::str::FromStr for Cusip {
    type Err = ValidationError;

    fn from_str(s: &str) -> (res: Result<Self, Self::Err>)
        ensures
            match res {
                Ok(v) => is_valid_cusip(s@) && v@ == ascii_bytes(s@) && utf8_text(v@) == s@,
                Err(e) => spec_cusip_parse(s@) == Err::<(), ValidationError>(e),
            },
    {
        Self::parse(s)
    }
}

impl AsRef<str> for Cusip {
    fn as_ref(&self) -> (r: &str)
        ensures
            r@ == utf8_text(self@),
    {
        self.as_str()
    }
}

} // verus!
