//! ASCII alphabet primitives shared by every identifier: character
//! classes, character values, and the first-invalid-character scan that
//! every parser reports through [`ValidationError::InvalidCharacter`].
use vstd::prelude::*;
use crate::errors::ValidationError;

verus! {

// ─── Character classes ───────────────────────────────────────────────────────

/// An ASCII decimal digit `'0'..='9'`.
pub open spec fn is_digit_char(c: char) -> bool {
    '0' <= c && c <= '9'
}

/// An upper-case ASCII letter `'A'..='Z'`.
pub open spec fn is_upper_char(c: char) -> bool {
    'A' <= c && c <= 'Z'
}

/// An ASCII digit or upper-case letter.
pub open spec fn is_alnum_char(c: char) -> bool {
    is_digit_char(c) || is_upper_char(c)
}

/// An upper-case vowel: `A`, `E`, `I`, `O` or `U`.
pub open spec fn is_vowel_char(c: char) -> bool {
    c == 'A' || c == 'E' || c == 'I' || c == 'O' || c == 'U'
}

/// An upper-case letter that is not a vowel.
pub open spec fn is_consonant_char(c: char) -> bool {
    is_upper_char(c) && !is_vowel_char(c)
}

/// A character in the 7-bit ASCII range.
pub open spec fn is_ascii_char(c: char) -> bool {
    '\0' <= c && c <= '\u{7f}'
}

// ─── Character values ────────────────────────────────────────────────────────

/// Numeric value of a digit character: `'7'` is 7.
pub open spec fn digit_val(c: char) -> int {
    c as int - '0' as int
}

/// Base-36 value of an alphanumeric character: `'0'..='9'` are `0..=9`,
/// `'A'..='Z'` are `10..=35`.
pub open spec fn alnum_val(c: char) -> int {
    if is_digit_char(c) {
        c as int - '0' as int
    } else {
        c as int - 'A' as int + 10
    }
}

/// The ASCII digit character of `v mod 10`.
pub open spec fn digit_char_of(v: int) -> char {
    ('0' as int + v % 10) as char
}

/// The check character of a weighted sum: `(10 - (sum mod 10)) mod 10`.
pub open spec fn mod10_check_char(sum: int) -> char {
    digit_char_of(10 - sum % 10)
}

/// A mod-10 check character is always an ASCII digit.
pub proof fn lemma_mod10_check_char_digit(sum: int)
    ensures
        is_digit_char(mod10_check_char(sum)),
{
}

pub fn is_digit(c: char) -> (r: bool)
    ensures
        r == is_digit_char(c),
{
    '0' <= c && c <= '9'
}

pub fn is_upper(c: char) -> (r: bool)
    ensures
        r == is_upper_char(c),
{
    'A' <= c && c <= 'Z'
}

pub fn is_alnum(c: char) -> (r: bool)
    ensures
        r == is_alnum_char(c),
{
    is_digit(c) || is_upper(c)
}

pub fn is_vowel(c: char) -> (r: bool)
    ensures
        r == is_vowel_char(c),
{
    c == 'A' || c == 'E' || c == 'I' || c == 'O' || c == 'U'
}

pub fn is_consonant(c: char) -> (r: bool)
    ensures
        r == is_consonant_char(c),
{
    is_upper(c) && !is_vowel(c)
}

/// Value of a digit character: `c - '0'`, wrapping below `'0'`. Only
/// meaningful for a digit.
pub fn digit_value(c: char) -> (v: u32)
    ensures
        v as int == (c as int - '0' as int) % 0x1_0000_0000,
        is_digit_char(c) ==> v == digit_val(c) && v <= 9,
{
    (c as u32).wrapping_sub('0' as u32)
}

/// 1-based position of a letter in the alphabet: `c - 'A' + 1`, wrapping.
/// Only meaningful for an upper-case letter.
pub fn letter_ordinal(c: char) -> (v: u32)
    ensures
        v as int == (c as int - 'A' as int + 1) % 0x1_0000_0000,
        is_upper_char(c) ==> 1 <= v <= 26,
{
    (c as u32).wrapping_sub('A' as u32).wrapping_add(1)
}

/// Base-36 value of an alphanumeric character: `'0'..='9'` are `0..=9`,
/// `'A'..='Z'` are `10..=35`. Other characters give a wrapped value.
pub fn alnum_value(c: char) -> (v: u32)
    ensures
        v as int == (if is_digit_char(c) {
            c as int - '0' as int
        } else {
            (c as int - 'A' as int + 10) % 0x1_0000_0000
        }),
        is_alnum_char(c) ==> v == alnum_val(c) && v <= 35 && (v < 10) == is_digit_char(c),
{
    if is_digit(c) {
        digit_value(c)
    } else {
        letter_ordinal(c).wrapping_add(9)
    }
}

/// The ASCII digit character of `value mod 10`.
pub fn digit_char(value: u32) -> (c: char)
    ensures
        c == digit_char_of(value as int),
        is_digit_char(c),
{
    let d: u8 = (value % 10) as u8;
    (48u8 + d) as char
}

/// The ASCII byte of an ASCII character.
pub fn ascii_byte(c: char) -> (b: u8)
    requires
        is_ascii_char(c),
    ensures
        b as int == c as int,
        b as char == c,
{
    c as u8
}

// ─── The first-invalid-character scan ────────────────────────────────────────

/// Index of the first character at or after `i` that `ok` rejects.
pub open spec fn first_invalid_from(s: Seq<char>, ok: spec_fn(int, char) -> bool, i: int) -> Option<int>
    decreases s.len() - i,
{
    if i < 0 || i >= s.len() {
        None
    } else if !ok(i, s[i]) {
        Some(i)
    } else {
        first_invalid_from(s, ok, i + 1)
    }
}

/// The verdict of a left-to-right character-set check: the first character
/// that `ok` rejects is reported with its 1-based position.
pub open spec fn char_scan(s: Seq<char>, ok: spec_fn(int, char) -> bool) -> Result<(), ValidationError> {
    match first_invalid_from(s, ok, 0) {
        Some(i) => Err(ValidationError::InvalidCharacter { position: (i + 1) as usize, found: s[i] }),
        None => Ok(()),
    }
}

/// When every character from `i` on is accepted, the scan from `i` finds nothing.
pub proof fn lemma_scan_all_ok(s: Seq<char>, ok: spec_fn(int, char) -> bool, i: int)
    requires
        0 <= i,
        forall|j: int| i <= j < s.len() ==> #[trigger] ok(j, s[j]),
    ensures
        first_invalid_from(s, ok, i) == None::<int>,
    decreases s.len() - i,
{
    if i < s.len() {
        lemma_scan_all_ok(s, ok, i + 1);
    }
}

/// Accepted characters in `[i, k)` can be skipped without changing the scan.
pub proof fn lemma_scan_skip(s: Seq<char>, ok: spec_fn(int, char) -> bool, i: int, k: int)
    requires
        0 <= i <= k <= s.len(),
        forall|j: int| i <= j < k ==> #[trigger] ok(j, s[j]),
    ensures
        first_invalid_from(s, ok, i) == first_invalid_from(s, ok, k),
    decreases k - i,
{
    if i < k {
        lemma_scan_skip(s, ok, i + 1, k);
    }
}

/// The scan finds nothing exactly when every character is accepted.
pub proof fn lemma_scan_none_iff(s: Seq<char>, ok: spec_fn(int, char) -> bool, i: int)
    requires
        0 <= i,
    ensures
        first_invalid_from(s, ok, i) == None::<int> <==> forall|j: int| i <= j < s.len() ==> #[trigger] ok(j, s[j]),
        first_invalid_from(s, ok, i) matches Some(k) ==> i <= k < s.len() && !ok(k, s[k]),
    decreases s.len() - i,
{
    if i < s.len() {
        lemma_scan_none_iff(s, ok, i + 1);
    }
}

} // verus!
