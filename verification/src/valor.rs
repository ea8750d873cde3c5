//! VALOR — Valorennummer, the Swiss national securities number.
//!
//! A run of 1 to 9 ASCII decimal digits with no segments and no check
//! digit. A Swiss or Liechtenstein ISIN embeds the VALOR left-padded with
//! zeros to nine digits.
use vstd::prelude::*;
use vstd::utf8::is_ascii_chars;
use crate::bic::{stored_text_bytes, zero_bytes};
use crate::charset::{ascii_byte, char_scan, is_digit, is_digit_char, lemma_scan_all_ok, lemma_scan_none_iff, lemma_scan_skip};
use crate::errors::ValidationError;
use crate::text::{ascii_bytes, lemma_ascii_text, str_from_utf8_or_empty, utf8_text};

verus! {

/// Every character of a VALOR is a digit.
pub open spec fn valor_ok() -> spec_fn(int, char) -> bool {
    |i: int, c: char| is_digit_char(c)
}

/// The verdict of [`Valor::parse`] on `s`.
pub open spec fn spec_valor_parse(s: Seq<char>) -> Result<(), ValidationError> {
    if !(1 <= s.len() <= 9) {
        Err(ValidationError::Structure { rule: "VALOR must be 1 to 9 digits" })
    } else {
        char_scan(s, valor_ok())
    }
}

/// `s` is a valid VALOR.
pub open spec fn is_valid_valor(s: Seq<char>) -> bool {
    spec_valor_parse(s) is Ok
}

/// A valid VALOR is one to nine ASCII digits.
pub proof fn lemma_valid_valor_facts(s: Seq<char>)
    requires
        is_valid_valor(s),
    ensures
        1 <= s.len() <= 9,
        forall|j: int| 0 <= j < s.len() ==> #[trigger] is_digit_char(s[j]),
        is_ascii_chars(s),
{
    lemma_scan_none_iff(s, valor_ok(), 0);
    assert forall|j: int| 0 <= j < s.len() implies #[trigger] is_digit_char(s[j]) by {
        assert(valor_ok()(j, s[j]));
    }
    assert forall|j: int| 0 <= j < s.len() implies '\0' <= #[trigger] s[j] <= '\u{7f}' by {
        assert(is_digit_char(s[j]));
    }
}

/// The number whose decimal digits are `bs`, each byte read as
/// `(b - '0') mod 256`.
pub open spec fn decimal_value(bs: Seq<u8>) -> int
    decreases bs.len(),
{
    if bs.len() == 0 {
        0
    } else {
        decimal_value(bs.drop_last()) * 10 + ((bs.last() - 48) % 256)
    }
}

/// A validated VALOR: its 1 to 9 ASCII digits stored in a 9-byte buffer
/// with a zeroed tail, and its length.
#[derive(Debug, Clone, Copy, PartialEq, Eq, Hash)]
pub struct Valor {
    bytes: [u8; 9],
    len: u8,
}

impl View for Valor {
    /// The stored 9 bytes and the length.
    type V = (Seq<u8>, u8);

    closed spec fn view(&self) -> (Seq<u8>, u8) {
        (self.bytes@, self.len)
    }
}

/// `10^n`.
pub open spec fn ten_pow(n: nat) -> int
    decreases n,
{
    if n == 0 {
        1
    } else {
        10 * ten_pow((n - 1) as nat)
    }
}

proof fn lemma_ten_pow_bound(n: nat)
    requires
        n <= 9,
    ensures
        1 <= ten_pow(n) <= 1_000_000_000,
    decreases n,
{
    if n > 0 {
        lemma_ten_pow_bound((n - 1) as nat);
        if n == 9 {
            reveal_with_fuel(ten_pow, 10);
        } else {
            assert(ten_pow((n - 1) as nat) <= 100_000_000) by {
                lemma_ten_pow_monotone((n - 1) as nat, 8);
                reveal_with_fuel(ten_pow, 9);
            }
        }
    }
}

proof fn lemma_ten_pow_monotone(m: nat, n: nat)
    requires
        m <= n,
    ensures
        1 <= ten_pow(m) <= ten_pow(n),
    decreases n,
{
    if m < n {
        lemma_ten_pow_monotone(m, (n - 1) as nat);
    } else if n > 0 {
        lemma_ten_pow_monotone((n - 1) as nat, (n - 1) as nat);
    }
}

/// A value of `n` digit positions, each at most 255, is at most
/// `255 * (10^n - 1) / 9`.
proof fn lemma_decimal_value_bound(bs: Seq<u8>)
    ensures
        0 <= decimal_value(bs),
        9 * decimal_value(bs) <= 255 * (ten_pow(bs.len()) - 1),
    decreases bs.len(),
{
    if bs.len() > 0 {
        let v = decimal_value(bs.drop_last());
        let t = ten_pow(bs.drop_last().len());
        lemma_decimal_value_bound(bs.drop_last());
        let d = (bs.last() - 48) % 256;
        assert(0 <= d <= 255);
        assert(9 * (v * 10 + d) <= 255 * (10 * t - 1)) by (nonlinear_arith)
            requires
                9 * v <= 255 * (t - 1),
                0 <= d <= 255,
        ;
    }
}

impl Valor {
    /// The shortest VALOR.
    pub const MIN_LENGTH: usize = 1;

    /// The longest VALOR.
    pub const MAX_LENGTH: usize = 9;

    /// Parses and validates a VALOR: 1 to 9 characters, all ASCII digits.
    pub fn parse(s: &str) -> (res: Result<Self, ValidationError>)
        ensures
            match res {
                Ok(v) => {
                    &&& is_valid_valor(s@)
                    &&& v@.0 == ascii_bytes(s@) + zero_bytes((9 - s@.len()) as nat)
                    &&& v@.1 == s@.len()
                    &&& utf8_text(stored_text_bytes(v@.0, v@.1)) == s@
                },
                Err(e) => spec_valor_parse(s@) == Err::<(), ValidationError>(e),
            },
    {
        let found = s.unicode_len();
        if !(1 <= found && found <= 9) {
            return Err(ValidationError::Structure { rule: "VALOR must be 1 to 9 digits" });
        }
        let ghost cs = s@;
        let mut bytes = [0u8; 9];
        let mut k: usize = 0;
        for c in it: s.chars()
            invariant
                k == it.index(),
                it.seq() == cs,
                cs == s@,
                cs.len() == found,
                1 <= found <= 9,
                forall|j: int| 0 <= j < k ==> is_digit_char(#[trigger] cs[j]),
                forall|j: int| 0 <= j < k ==> bytes@[j] == #[trigger] cs[j] as u8,
                forall|j: int| found <= j < 9 ==> bytes@[j] == 0,
        {
            assert(c == cs[k as int]);
            if !is_digit(c) {
                proof {
                    lemma_scan_skip(cs, valor_ok(), 0, k as int);
                }
                return Err(ValidationError::InvalidCharacter { position: k + 1, found: c });
            }
            bytes[k] = ascii_byte(c);
            k += 1;
        }
        proof {
            lemma_scan_all_ok(cs, valor_ok(), 0);
            assert(is_ascii_chars(cs));
            assert(bytes@ =~= ascii_bytes(cs) + zero_bytes((9 - found) as nat));
            assert(bytes@.subrange(0, found as int) =~= ascii_bytes(cs));
            lemma_ascii_text(cs);
        }
        Ok(Valor { bytes, len: found as u8 })
    }

    /// Validates a VALOR without constructing one.
    pub fn validate(s: &str) -> (res: Result<(), ValidationError>)
        ensures
            res == spec_valor_parse(s@),
    {
        match Self::parse(s) {
            Ok(_) => Ok(()),
            Err(e) => Err(e),
        }
    }

    /// Wraps 9 raw bytes and a length as a `Valor` without any validation.
    pub fn from_bytes_unchecked(bytes: [u8; 9], len: u8) -> (r: Self)
        ensures
            r@ == (bytes@, len),
    {
        Valor { bytes, len }
    }

    /// The VALOR as a string slice.
    pub fn as_str(&self) -> (r: &str)
        ensures
            r@ == utf8_text(stored_text_bytes(self@.0, self@.1)),
    {
        str_from_utf8_or_empty(self.as_bytes())
    }

    /// The VALOR's bytes: the first `len` stored bytes.
    pub fn as_bytes(&self) -> (r: &[u8])
        ensures
            r@ == stored_text_bytes(self@.0, self@.1),
    {
        if self.len as usize <= 9 {
            vstd::slice::slice_subrange(self.bytes.as_slice(), 0, self.len as usize)
        } else {
            vstd::slice::slice_subrange(self.bytes.as_slice(), 0, 0)
        }
    }

    /// The number of digits.
    pub fn len(&self) -> (r: usize)
        ensures
            r == self@.1,
    {
        self.len as usize
    }

    /// `true` if the length is zero — never the case for a parsed VALOR.
    pub fn is_empty(&self) -> (r: bool)
        ensures
            r == (self@.1 == 0),
    {
        self.len == 0
    }

    /// The numeric value of the VALOR's digits; leading zeros are absorbed.
    pub fn as_u64(&self) -> (r: u64)
        ensures
            r == decimal_value(stored_text_bytes(self@.0, self@.1)),
    {
        let digits = self.as_bytes();
        let mut value: u64 = 0;
        let mut i: usize = 0;
        while i < digits.len()
            invariant
                i <= digits@.len(),
                digits@.len() <= 9,
                digits@ == stored_text_bytes(self@.0, self@.1),
                value == decimal_value(digits@.subrange(0, i as int)),
            decreases digits@.len() - i,
        {
            proof {
                assert(digits@.subrange(0, i + 1).drop_last() =~= digits@.subrange(0, i as int));
                lemma_decimal_value_bound(digits@.subrange(0, i as int));
                lemma_ten_pow_bound(i as nat);
            }
            value = value * 10 + (digits[i].wrapping_sub(48) as u64);
            i += 1;
        }
        proof {
            assert(digits@.subrange(0, digits@.len() as int) =~= digits@);
        }
        value
    }

    /// The numeric value as a `u32`; any VALOR of up to 9 digits fits, and
    /// a value that does not fit gives 0.
    pub fn as_u32(&self) -> (r: u32)
        ensures
            r == (if decimal_value(stored_text_bytes(self@.0, self@.1)) <= u32::MAX {
                decimal_value(stored_text_bytes(self@.0, self@.1))
            } else {
                0
            }),
    {
        let v = self.as_u64();
        if v <= 0xFFFF_FFFF {
            v as u32
        } else {
            0
        }
    }
}

impl core::str::FromStr for Valor {
    type Err = ValidationError;

    fn from_str(s: &str) -> (res: Result<Self, Self::Err>)
        ensures
            match res {
                Ok(v) => {
                    &&& is_valid_valor(s@)
                    &&& v@.0 == ascii_bytes(s@) + zero_bytes((9 - s@.len()) as nat)
                    &&& v@.1 == s@.len()
                    &&& utf8_text(stored_text_bytes(v@.0, v@.1)) == s@
                },
                Err(e) => spec_valor_parse(s@) == Err::<(), ValidationError>(e),
            },
    {
        Self::parse(s)
    }
}

impl AsRef<str> for Valor {
    fn as_ref(&self) -> (r: &str)
        ensures
            r@ == utf8_text(stored_text_bytes(self@.0, self@.1)),
    {
        self.as_str()
    }
}

} // verus!
