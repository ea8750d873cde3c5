//! LEI — Legal Entity Identifier (ISO 17442).
//!
//! Exactly 20 characters: the LOU prefix `[0..4]`, the reserved field
//! `[4..6]` fixed to the literal `00`, the entity ID `[6..18]` over
//! `[A-Z0-9]`, and two check digits `[18..20]` — the ISO 7064 MOD 97-10 of
//! the 18-character body, recomputed and verified on parse.
use vstd::prelude::*;
use vstd::utf8::is_ascii_chars;
use crate::charset::{
    alnum_val, digit_char_of, ascii_byte, char_scan, is_alnum, is_alnum_char, is_digit, is_digit_char, lemma_scan_all_ok,
    lemma_scan_none_iff, lemma_scan_skip,
};
use crate::checkdigit::{
    expanded_number, lei_body_ok, lei_check_chars, lei_check_digits, lei_check_value, spec_lei_check_digits,
};
use crate::errors::ValidationError;
use crate::text::{ascii_bytes, lemma_ascii_text, lemma_ascii_text_subrange, str_from_utf8_or_empty, utf8_text};

verus! {

/// Character set of position `i` of an LEI: `[A-Z0-9]`, digits in the two
/// check positions.
pub open spec fn lei_char_ok(i: int, c: char) -> bool {
    if i >= 18 {
        is_digit_char(c)
    } else {
        is_alnum_char(c)
    }
}

/// The per-position character check of an LEI.
pub open spec fn lei_ok() -> spec_fn(int, char) -> bool {
    |i: int, c: char| lei_char_ok(i, c)
}

/// The verdict of [`Lei::parse`] on `s`: length, characters, the reserved
/// `00` field, then the two check digits, the first mismatch reported.
pub open spec fn spec_lei_parse(s: Seq<char>) -> Result<(), ValidationError> {
    if s.len() != 20 {
        Err(ValidationError::WrongLength { expected: 20, found: s.len() as usize })
    } else if char_scan(s, lei_ok()) is Err {
        char_scan(s, lei_ok())
    } else if !(s[4] == '0' && s[5] == '0') {
        Err(ValidationError::Structure { rule: "LEI positions 5-6 must be 00" })
    } else if lei_check_chars(s.subrange(0, 18)).0 != s[18] {
        Err(ValidationError::BadCheckDigit { expected: lei_check_chars(s.subrange(0, 18)).0, found: s[18] })
    } else if lei_check_chars(s.subrange(0, 18)).1 != s[19] {
        Err(ValidationError::BadCheckDigit { expected: lei_check_chars(s.subrange(0, 18)).1, found: s[19] })
    } else {
        Ok(())
    }
}

/// `s` is a valid LEI.
pub open spec fn is_valid_lei(s: Seq<char>) -> bool {
    spec_lei_parse(s) is Ok
}

/// The digit character of a value is a digit whose value is that value
/// modulo 10.
proof fn lemma_digit_char_of(v: int)
    ensures
        is_digit_char(digit_char_of(v)),
        alnum_val(digit_char_of(v)) == v % 10,
{
}

/// The two check digits of an LEI body, read as a two-digit number, are
/// `98 - (M * 100 mod 97)`, which lies in `2..=98`.
proof fn lemma_lei_check_chars(body: Seq<char>)
    ensures
        is_digit_char(lei_check_chars(body).0),
        is_digit_char(lei_check_chars(body).1),
        2 <= lei_check_value(body) <= 98,
        10 * alnum_val(lei_check_chars(body).0) + alnum_val(lei_check_chars(body).1) == lei_check_value(body),
{
    let c = lei_check_value(body);
    lemma_digit_char_of(c / 10);
    lemma_digit_char_of(c % 10);
}

/// The expansion of a body followed by two digits is the body's expansion
/// shifted two decimal places, plus the two-digit number.
proof fn lemma_expand_two_digits(s: Seq<char>)
    requires
        s.len() == 20,
        is_digit_char(s[18]),
        is_digit_char(s[19]),
    ensures
        expanded_number(s) == expanded_number(s.subrange(0, 18)) * 100 + 10 * alnum_val(s[18]) + alnum_val(s[19]),
{
    let m = expanded_number(s.subrange(0, 18));
    assert(s.drop_last() =~= s.subrange(0, 19));
    assert(s.subrange(0, 19).drop_last() =~= s.subrange(0, 18));
    assert(s.subrange(0, 19).last() == s[18]);
    let d1 = alnum_val(s[18]);
    let d2 = alnum_val(s[19]);
    assert(expanded_number(s) == expanded_number(s.subrange(0, 19)) * 10 + d2);
    assert(expanded_number(s.subrange(0, 19)) == m * 10 + d1);
    assert((m * 10 + d1) * 10 + d2 == m * 100 + 10 * d1 + d2) by (nonlinear_arith);
}

/// The check digits of a valid LEI are the two that `lei_check_digits`
/// computes for its first eighteen characters, and they are the text that
/// `Lei::check_digits` reports for the parsed LEI.
pub proof fn law_lei_check_digits(s: Seq<char>)
    requires
        is_valid_lei(s),
    ensures
        spec_lei_check_digits(s.subrange(0, 18)) == Ok::<(char, char), ValidationError>((s[18], s[19])),
        utf8_text(ascii_bytes(s).subrange(18, 20)) == seq![s[18], s[19]],
{
    lemma_scan_none_iff(s, lei_ok(), 0);
    assert forall|j: int| 0 <= j < 20 implies #[trigger] lei_char_ok(j, s[j]) by {
        assert(lei_ok()(j, s[j]));
    }
    let body = s.subrange(0, 18);
    assert forall|j: int| 0 <= j < 18 implies #[trigger] is_alnum_char(body[j]) by {
        assert(lei_char_ok(j, s[j]));
    }
    lemma_scan_all_ok(body, lei_body_ok(), 0);
    assert forall|j: int| 0 <= j < 20 implies '\0' <= #[trigger] s[j] <= '\u{7f}' by {
        assert(lei_char_ok(j, s[j]));
    }
    lemma_ascii_text_subrange(s, 18, 20);
    assert(s.subrange(18, 20) =~= seq![s[18], s[19]]);
}

/// An LEI body — 18 characters of `[A-Z0-9]` with `00` at positions 5–6 —
/// completed with the two check digits that `lei_check_digits` computes for
/// it always parses.
pub proof fn law_lei_completion(body: Seq<char>)
    requires
        body.len() == 18,
        forall|j: int| 0 <= j < 18 ==> #[trigger] is_alnum_char(body[j]),
        body[4] == '0',
        body[5] == '0',
    ensures
        spec_lei_check_digits(body) == Ok::<(char, char), ValidationError>(lei_check_chars(body)),
        is_valid_lei(body.push(lei_check_chars(body).0).push(lei_check_chars(body).1)),
{
    let s = body.push(lei_check_chars(body).0).push(lei_check_chars(body).1);
    lemma_lei_check_chars(body);
    lemma_scan_all_ok(body, lei_body_ok(), 0);
    assert forall|j: int| 0 <= j < 20 implies #[trigger] lei_char_ok(j, s[j]) by {
        if j < 18 {
            assert(s[j] == body[j]);
        }
    }
    lemma_scan_all_ok(s, lei_ok(), 0);
    assert(s.subrange(0, 18) =~= body);
}

/// ISO 7064 MOD 97-10 acceptance: the expansion of every valid LEI, all 20
/// characters, is 1 modulo 97.
pub proof fn law_lei_mod97(s: Seq<char>)
    requires
        is_valid_lei(s),
    ensures
        expanded_number(s) % 97 == 1,
{
    let body = s.subrange(0, 18);
    lemma_lei_check_chars(body);
    lemma_expand_two_digits(s);
    let x = expanded_number(body) * 100;
    let c = lei_check_value(body);
    assert(expanded_number(s) == x + c);
    assert((x + 98 - x % 97) % 97 == 1) by (nonlinear_arith);
}

/// The converse, for check digits in the range `02..=98` that the
/// algorithm produces: an LEI of the right shape whose expansion is 1
/// modulo 97 is valid.
pub proof fn law_lei_mod97_accepts(s: Seq<char>)
    requires
        s.len() == 20,
        forall|j: int| 0 <= j < 18 ==> #[trigger] is_alnum_char(s[j]),
        is_digit_char(s[18]),
        is_digit_char(s[19]),
        s[4] == '0',
        s[5] == '0',
        2 <= 10 * alnum_val(s[18]) + alnum_val(s[19]) <= 98,
        expanded_number(s) % 97 == 1,
    ensures
        is_valid_lei(s),
{
    let body = s.subrange(0, 18);
    lemma_lei_check_chars(body);
    lemma_expand_two_digits(s);
    let x = expanded_number(body) * 100;
    let c = lei_check_value(body);
    let v = 10 * alnum_val(s[18]) + alnum_val(s[19]);
    assert((x + 98 - x % 97) % 97 == 1) by (nonlinear_arith);
    assert(v == c) by (nonlinear_arith)
        requires
            (x + v) % 97 == 1,
            (x + c) % 97 == 1,
            2 <= v <= 98,
            2 <= c <= 98,
    ;
    assert forall|j: int| 0 <= j < 20 implies #[trigger] lei_char_ok(j, s[j]) by {
    }
    lemma_scan_all_ok(s, lei_ok(), 0);
    assert(s[18] == lei_check_chars(body).0);
    assert(s[19] == lei_check_chars(body).1);
}

/// A validated Legal Entity Identifier, stored as its 20 ASCII bytes.
#[derive(Debug, Clone, Copy, PartialEq, Eq, Hash)]
pub struct Lei {
    bytes: [u8; 20],
}

impl View for Lei {
    type V = Seq<u8>;

    closed spec fn view(&self) -> Seq<u8> {
        self.bytes@
    }
}

fn lei_char_check(i: usize, c: char) -> (r: bool)
    ensures
        r == lei_char_ok(i as int, c),
{
    if i >= 18 {
        is_digit(c)
    } else {
        is_alnum(c)
    }
}

impl Lei {
    /// The number of characters in an LEI.
    pub const LENGTH: usize = 20;

    /// Parses and fully validates an LEI: exact length, the per-position
    /// character set, the reserved `00` field, and check digits recomputed
    /// from the body (the first differing digit is reported).
    pub fn parse(s: &str) -> (res: Result<Self, ValidationError>)
        ensures
            match res {
                Ok(v) => is_valid_lei(s@) && v@ == ascii_bytes(s@) && utf8_text(v@) == s@,
                Err(e) => spec_lei_parse(s@) == Err::<(), ValidationError>(e),
            },
    {
        let found = s.unicode_len();
        if found != 20 {
            return Err(ValidationError::WrongLength { expected: 20, found });
        }
        let ghost cs = s@;
        let mut bytes = [0u8; 20];
        let mut k: usize = 0;
        for c in it: s.chars()
            invariant
                k == it.index(),
                it.seq() == cs,
                cs == s@,
                cs.len() == 20,
                forall|j: int| 0 <= j < k ==> lei_char_ok(j, #[trigger] cs[j]),
                forall|j: int| 0 <= j < k ==> bytes@[j] == #[trigger] cs[j] as u8,
        {
            assert(c == cs[k as int]);
            if !lei_char_check(k, c) {
                proof {
                    lemma_scan_skip(cs, lei_ok(), 0, k as int);
                }
                return Err(ValidationError::InvalidCharacter { position: k + 1, found: c });
            }
            bytes[k] = ascii_byte(c);
            k += 1;
        }
        proof {
            lemma_scan_all_ok(cs, lei_ok(), 0);
            assert(is_ascii_chars(cs));
            assert(bytes@ =~= ascii_bytes(cs));
            lemma_ascii_text(cs);
        }
        // Characters 5-6 are a reserved field fixed to the literal "00".
        if !(bytes[4] == 48 && bytes[5] == 48) {
            return Err(ValidationError::Structure { rule: "LEI positions 5-6 must be 00" });
        }
        let body = s.substring_char(0, 18);
        proof {
            assert forall|j: int| 0 <= j < 18 implies #[trigger] is_alnum_char(body@[j]) by {
                assert(lei_char_ok(j, cs[j]));
            }
            lemma_scan_all_ok(body@, lei_body_ok(), 0);
        }
        let expected = match lei_check_digits(body) {
            Ok(d) => d,
            Err(e) => return Err(e),
        };
        // Compare the two check digits, reporting the first that differs.
        let got = bytes[18] as char;
        if expected[0] != got {
            return Err(ValidationError::BadCheckDigit { expected: expected[0], found: got });
        }
        let got = bytes[19] as char;
        if expected[1] != got {
            return Err(ValidationError::BadCheckDigit { expected: expected[1], found: got });
        }
        Ok(Lei { bytes })
    }

    /// Validates an LEI without constructing one.
    pub fn validate(s: &str) -> (res: Result<(), ValidationError>)
        ensures
            res == spec_lei_parse(s@),
    {
        match Self::parse(s) {
            Ok(_) => Ok(()),
            Err(e) => Err(e),
        }
    }

    /// Wraps 20 raw bytes as an `Lei` without any validation.
    pub fn from_bytes_unchecked(bytes: [u8; 20]) -> (r: Self)
        ensures
            r@ == bytes@,
    {
        Lei { bytes }
    }

    /// The LEI as a string slice.
    pub fn as_str(&self) -> (r: &str)
        ensures
            r@ == utf8_text(self@),
    {
        str_from_utf8_or_empty(self.bytes.as_slice())
    }

    /// The LEI as its 20 raw bytes.
    pub fn as_bytes(&self) -> (r: &[u8])
        ensures
            r@ == self@,
    {
        self.bytes.as_slice()
    }

    /// The four-character LOU prefix, characters 1–4.
    pub fn lou_prefix(&self) -> (r: &str)
        ensures
            r@ == utf8_text(self@.subrange(0, 4)),
    {
        str_from_utf8_or_empty(vstd::slice::slice_subrange(self.bytes.as_slice(), 0, 4))
    }

    /// The twelve-character entity ID, characters 7–18.
    pub fn entity_id(&self) -> (r: &str)
        ensures
            r@ == utf8_text(self@.subrange(6, 18)),
    {
        str_from_utf8_or_empty(vstd::slice::slice_subrange(self.bytes.as_slice(), 6, 18))
    }

    /// The two check digits, characters 19–20.
    pub fn check_digits(&self) -> (r: &str)
        ensures
            r@ == utf8_text(self@.subrange(18, 20)),
    {
        str_from_utf8_or_empty(vstd::slice::slice_subrange(self.bytes.as_slice(), 18, 20))
    }
}

impl core::str::FromStr for Lei {
    type Err = ValidationError;

    fn from_str(s: &str) -> (res: Result<Self, Self::Err>)
        ensures
            match res {
                Ok(v) => is_valid_lei(s@) && v@ == ascii_bytes(s@) && utf8_text(v@) == s@,
                Err(e) => spec_lei_parse(s@) == Err::<(), ValidationError>(e),
            },
    {
        Self::parse(s)
    }
}

impl AsRef<str> for Lei {
    fn as_ref(&self) -> (r: &str)
        ensures
            r@ == utf8_text(self@),
    {
        self.as_str()
    }
}

} // verus!
