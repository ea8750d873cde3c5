//! Text views of stored identifier bytes.
//!
//! Every identifier stores its characters as ASCII bytes. Reading those
//! bytes back as a string slice goes through [`str_from_utf8_or_empty`], the
//! one place where the library relies on `core::str::from_utf8`.
use vstd::prelude::*;
use vstd::utf8::{decode_utf8, encode_utf8, is_ascii_chars, valid_utf8};
use crate::charset::{digit_char, digit_char_of};

verus! {

/// The characters of a string whose UTF-8 encoding is `bytes`, or the empty
/// string when `bytes` is not valid UTF-8.
pub open spec fn utf8_text(bytes: Seq<u8>) -> Seq<char> {
    if valid_utf8(bytes) {
        decode_utf8(bytes)
    } else {
        Seq::empty()
    }
}

/// The bytes of a sequence of ASCII characters.
pub open spec fn ascii_bytes(cs: Seq<char>) -> Seq<u8> {
    cs.map_values(|c: char| c as u8)
}

/// Reads `bytes` as a string slice: `core::str::from_utf8(bytes)`, with an
/// empty string in place of the error.
///
/// Trusted: the contract states what the documentation of
/// `core::str::from_utf8` promises — it succeeds exactly on valid UTF-8, and
/// the string it returns is the decoding of the bytes.
#[verifier::external_body]
pub fn str_from_utf8_or_empty(bytes: &[u8]) -> (s: &str)
    ensures
        s@ == utf8_text(bytes@),
{
    match core::str::from_utf8(bytes) {
        Ok(s) => s,
        Err(_) => "",
    }
}

/// Appends `c` to `s`: `String::push`.
///
/// Trusted: the contract states what the documentation of `String::push`
/// promises — the character is appended to the end of the string.
#[verifier::external_body]
pub fn push_char(s: &mut String, c: char)
    ensures
        final(s)@ == old(s)@.push(c),
{
    s.push(c);
}

/// The decimal digits of `n`, most significant first, with no leading zero.
pub open spec fn decimal_text(n: nat) -> Seq<char>
    decreases n,
{
    if n < 10 {
        seq![digit_char_of(n as int)]
    } else {
        decimal_text(n / 10).push(digit_char_of((n % 10) as int))
    }
}

/// Appends the decimal digits of `n` to `s`.
pub fn push_decimal(s: &mut String, n: usize)
    ensures
        final(s)@ == old(s)@ + decimal_text(n as nat),
    decreases n,
{
    if n >= 10 {
        push_decimal(s, n / 10);
    }
    push_char(s, digit_char((n % 10) as u32));
    proof {
        if n < 10 {
            assert(n % 10 == n);
        }
    }
}

/// ASCII characters, stored as their bytes, read back as the same text.
pub proof fn lemma_ascii_text(cs: Seq<char>)
    requires
        is_ascii_chars(cs),
    ensures
        utf8_text(ascii_bytes(cs)) == cs,
        ascii_bytes(cs).len() == cs.len(),
{
    vstd::utf8::is_ascii_chars_encode_utf8(cs);
    assert(encode_utf8(cs) =~= ascii_bytes(cs));
    vstd::utf8::encode_utf8_valid_utf8(cs);
    vstd::utf8::encode_utf8_decode_utf8(cs);
}

/// A slice of an ASCII text is the text of the same slice of its bytes.
pub proof fn lemma_ascii_text_subrange(cs: Seq<char>, i: int, j: int)
    requires
        is_ascii_chars(cs),
        0 <= i <= j <= cs.len(),
    ensures
        utf8_text(ascii_bytes(cs).subrange(i, j)) == cs.subrange(i, j),
{
    assert(ascii_bytes(cs).subrange(i, j) =~= ascii_bytes(cs.subrange(i, j)));
    lemma_ascii_text(cs.subrange(i, j));
}

} // verus!
