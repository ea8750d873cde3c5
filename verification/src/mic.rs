//! MIC — Market Identifier Code (ISO 10383).
//!
//! Exactly 4 characters naming a trading venue: an upper-case letter `[0]`
//! followed by three characters `[1..4]` over `[A-Z0-9]`. A MIC has no check
//! digit; [`Mic::parse`] enforces structure only, and
//! [`Mic::parse_registered`] additionally requires the code to be in the
//! embedded ISO 10383 registry snapshot.
use vstd::prelude::*;
use vstd::utf8::is_ascii_chars;
use crate::charset::{ascii_byte, char_scan, is_alnum, is_alnum_char, is_upper, is_upper_char, lemma_scan_all_ok, lemma_scan_skip};
use crate::errors::ValidationError;
use crate::mic_registry::{lookup, spec_registry_lookup};
pub use crate::mic_registry::{MicEntry, MicStatus};
use crate::text::{ascii_bytes, lemma_ascii_text, str_from_utf8_or_empty, utf8_text};

verus! {

/// Character set of position `i` of a MIC: a letter first, `[A-Z0-9]` after.
pub open spec fn mic_char_ok(i: int, c: char) -> bool {
    if i == 0 {
        is_upper_char(c)
    } else {
        is_alnum_char(c)
    }
}

/// The per-position character check of a MIC.
pub open spec fn mic_ok() -> spec_fn(int, char) -> bool {
    |i: int, c: char| mic_char_ok(i, c)
}

/// The verdict of [`Mic::parse`] on `s`.
pub open spec fn spec_mic_parse(s: Seq<char>) -> Result<(), ValidationError> {
    if s.len() != 4 {
        Err(ValidationError::WrongLength { expected: 4, found: s.len() as usize })
    } else {
        char_scan(s, mic_ok())
    }
}

/// `s` is a structurally valid MIC.
pub open spec fn is_valid_mic(s: Seq<char>) -> bool {
    spec_mic_parse(s) is Ok
}

/// The verdict of [`Mic::parse_registered`] on `s`: the structural verdict,
/// then membership in the registry snapshot.
pub open spec fn spec_mic_parse_registered(s: Seq<char>) -> Result<(), ValidationError> {
    match spec_mic_parse(s) {
        Err(e) => Err(e),
        Ok(_) => if spec_registry_lookup(s) is Some {
            Ok(())
        } else {
            Err(ValidationError::Structure { rule: "MIC is not in the ISO 10383 registry" })
        },
    }
}

/// `s` is a structurally valid MIC that the registry snapshot holds.
pub open spec fn is_registered_mic(s: Seq<char>) -> bool {
    spec_mic_parse_registered(s) is Ok
}

/// A structurally valid Market Identifier Code, stored as its 4 ASCII bytes.
#[derive(Debug, Clone, Copy, PartialEq, Eq, Hash)]
pub struct Mic {
    bytes: [u8; 4],
}

impl View for Mic {
    type V = Seq<u8>;

    closed spec fn view(&self) -> Seq<u8> {
        self.bytes@
    }
}

fn mic_char_check(i: usize, c: char) -> (r: bool)
    ensures
        r == mic_char_ok(i as int, c),
{
    if i == 0 {
        is_upper(c)
    } else {
        is_alnum(c)
    }
}

impl Mic {
    /// The number of characters in a MIC.
    pub const LENGTH: usize = 4;

    /// Parses a MIC and validates its structure: exact length and the
    /// per-position character set.
    pub fn parse(s: &str) -> (res: Result<Self, ValidationError>)
        ensures
            match res {
                Ok(v) => is_valid_mic(s@) && v@ == ascii_bytes(s@) && utf8_text(v@) == s@,
                Err(e) => spec_mic_parse(s@) == Err::<(), ValidationError>(e),
            },
    {
        let found = s.unicode_len();
        if found != 4 {
            return Err(ValidationError::WrongLength { expected: 4, found });
        }
        let ghost cs = s@;
        let mut bytes = [0u8; 4];
        let mut k: usize = 0;
        for c in it: s.chars()
            invariant
                k == it.index(),
                it.seq() == cs,
                cs == s@,
                cs.len() == 4,
                forall|j: int| 0 <= j < k ==> mic_char_ok(j, #[trigger] cs[j]),
                forall|j: int| 0 <= j < k ==> bytes@[j] == #[trigger] cs[j] as u8,
        {
            assert(c == cs[k as int]);
            if !mic_char_check(k, c) {
                proof {
                    lemma_scan_skip(cs, mic_ok(), 0, k as int);
                }
                return Err(ValidationError::InvalidCharacter { position: k + 1, found: c });
            }
            bytes[k] = ascii_byte(c);
            k += 1;
        }
        proof {
            lemma_scan_all_ok(cs, mic_ok(), 0);
            assert(is_ascii_chars(cs));
            assert(bytes@ =~= ascii_bytes(cs));
            lemma_ascii_text(cs);
        }
        Ok(Mic { bytes })
    }

    /// Validates a MIC without constructing one.
    pub fn validate(s: &str) -> (res: Result<(), ValidationError>)
        ensures
            res == spec_mic_parse(s@),
    {
        match Self::parse(s) {
            Ok(_) => Ok(()),
            Err(e) => Err(e),
        }
    }

    /// Wraps 4 raw bytes as a `Mic` without any validation.
    pub fn from_bytes_unchecked(bytes: [u8; 4]) -> (r: Self)
        ensures
            r@ == bytes@,
    {
        Mic { bytes }
    }

    /// The MIC as a string slice.
    pub fn as_str(&self) -> (r: &str)
        ensures
            r@ == utf8_text(self@),
    {
        str_from_utf8_or_empty(self.bytes.as_slice())
    }

    /// The MIC as its 4 raw bytes.
    pub fn as_bytes(&self) -> (r: &[u8])
        ensures
            r@ == self@,
    {
        self.bytes.as_slice()
    }

    /// The leading letter, character 1.
    pub fn prefix(&self) -> (r: char)
        ensures
            r == self@[0] as char,
    {
        self.bytes[0] as char
    }

    /// The three-character market suffix, characters 2–4.
    pub fn suffix(&self) -> (r: &str)
        ensures
            r@ == utf8_text(self@.subrange(1, 4)),
    {
        str_from_utf8_or_empty(vstd::slice::slice_subrange(self.bytes.as_slice(), 1, 4))
    }

    /// Parses a MIC and requires it to be in the registry snapshot: the
    /// structural errors of [`Mic::parse`] first, then a structural error
    /// for a well-formed code the snapshot does not hold.
    pub fn parse_registered(s: &str) -> (res: Result<Self, ValidationError>)
        ensures
            match res {
                Ok(v) => is_registered_mic(s@) && v@ == ascii_bytes(s@) && utf8_text(v@) == s@,
                Err(e) => spec_mic_parse_registered(s@) == Err::<(), ValidationError>(e),
            },
    {
        let mic = match Self::parse(s) {
            Ok(mic) => mic,
            Err(e) => return Err(e),
        };
        if mic.is_registered() {
            Ok(mic)
        } else {
            Err(ValidationError::Structure { rule: "MIC is not in the ISO 10383 registry" })
        }
    }

    /// The registry entry of this MIC, or `None` if the snapshot does not
    /// hold it.
    pub fn lookup(&self) -> (r: Option<MicEntry>)
        ensures
            r == spec_registry_lookup(utf8_text(self@)),
    {
        lookup(self.as_str())
    }

    /// Whether the registry snapshot holds this MIC.
    pub fn is_registered(&self) -> (r: bool)
        ensures
            r == (spec_registry_lookup(utf8_text(self@)) is Some),
    {
        self.lookup().is_some()
    }
}

impl core::str::FromStr for Mic {
    type Err = ValidationError;

    fn from_str(s: &str) -> (res: Result<Self, Self::Err>)
        ensures
            match res {
                Ok(v) => is_valid_mic(s@) && v@ == ascii_bytes(s@) && utf8_text(v@) == s@,
                Err(e) => spec_mic_parse(s@) == Err::<(), ValidationError>(e),
            },
    {
        Self::parse(s)
    }
}

impl AsRef<str> for Mic {
    fn as_ref(&self) -> (r: &str)
        ensures
            r@ == utf8_text(self@),
    {
        self.as_str()
    }
}

} // verus!
