//! Check-digit algorithms for securities identifiers.
//!
//! Each function takes an identifier *body* (the identifier without its
//! check digits), validates the body's own length and character set, and
//! returns the check digit(s) its governing standard prescribes:
//!
//! ```text
//! luhn_checksum     Luhn mod-10 over a pure-digit string (right-to-left,
//!                   rightmost digit doubled, doubled products folded).
//! isin_check_digit  ISO 6166: letters expanded to two digits, then Luhn.
//! cusip_check_digit ANSI X9.6: left-to-right weights 1,2,1,2,... folded.
//! sedol_check_digit LSE: weights 1,3,1,7,3,9, products not folded.
//! lei_check_digits  ISO 7064 MOD 97-10 over the expanded body + "00".
//! figi_check_digit  ANSI X9.145: right-to-left weights 1,2,1,... folded.
//! ```
use vstd::prelude::*;
use crate::charset::{
    alnum_val, alnum_value, char_scan, digit_char, digit_char_of, digit_val, digit_value, is_alnum,
    is_alnum_char, is_consonant, is_consonant_char, is_digit, is_digit_char, lemma_scan_all_ok,
    lemma_scan_skip, mod10_check_char,
};
use crate::errors::ValidationError;

verus! {

// ─── Luhn mod-10 ─────────────────────────────────────────────────────────────

/// Luhn contribution of one digit: doubled when `doubled`, a product of 10
/// or more folded to its digit sum.
pub open spec fn luhn_contrib(d: int, doubled: bool) -> int {
    let w = if doubled { d * 2 } else { d };
    if w > 9 { w - 9 } else { w }
}

/// Luhn weighted sum of a digit sequence, scanned right-to-left: the
/// rightmost digit is doubled when `doubled`, and doubling alternates.
pub open spec fn luhn_sum(ds: Seq<int>, doubled: bool) -> int
    decreases ds.len(),
{
    if ds.len() == 0 {
        0
    } else {
        luhn_contrib(ds.last(), doubled) + luhn_sum(ds.drop_last(), !doubled)
    }
}

/// The digit values of a string of digit characters.
pub open spec fn digit_vals(s: Seq<char>) -> Seq<int> {
    s.map_values(|c: char| digit_val(c))
}

/// Every character must be a digit.
pub open spec fn digits_ok() -> spec_fn(int, char) -> bool {
    |i: int, c: char| is_digit_char(c)
}

/// What [`luhn_checksum`] returns for `s`.
pub open spec fn spec_luhn_checksum(s: Seq<char>) -> Result<u8, ValidationError> {
    if s.len() == 0 {
        Err(ValidationError::Empty)
    } else {
        match char_scan(s, digits_ok()) {
            Err(e) => Err(e),
            Ok(_) => Ok(((10 - luhn_sum(digit_vals(s), true) % 10) % 10) as u8),
        }
    }
}

proof fn lemma_luhn_push(xs: Seq<int>, v: int, doubled: bool)
    ensures
        luhn_sum(xs.push(v), doubled) == luhn_contrib(v, doubled) + luhn_sum(xs, !doubled),
{
    assert(xs.push(v).drop_last() =~= xs);
}

proof fn lemma_luhn_prefix_step(s: Seq<char>, k: int)
    requires
        0 <= k < s.len(),
    ensures
        luhn_sum(digit_vals(s.subrange(0, k + 1)), (s.len() - (k + 1)) % 2 == 0)
            == luhn_contrib(digit_val(s[k]), (s.len() - k) % 2 == 1)
            + luhn_sum(digit_vals(s.subrange(0, k)), (s.len() - k) % 2 == 0),
{
    let pre = digit_vals(s.subrange(0, k));
    assert(digit_vals(s.subrange(0, k + 1)) =~= pre.push(digit_val(s[k])));
    lemma_luhn_push(pre, digit_val(s[k]), (s.len() - (k + 1)) % 2 == 0);
}

proof fn lemma_mod10_add(total: int, acc: int, c: int)
    requires
        acc == total % 10,
    ensures
        (acc + c) % 10 == (total + c) % 10,
{
    vstd::arithmetic::div_mod::lemma_add_mod_noop(total, c, 10);
    vstd::arithmetic::div_mod::lemma_add_mod_noop(acc, c, 10);
    vstd::arithmetic::div_mod::lemma_mod_twice(total, 10);
}

fn luhn_contribution(d: u32, doubled: bool) -> (r: u32)
    requires
        d <= 9,
    ensures
        r == luhn_contrib(d as int, doubled),
        r <= 9,
{
    let weighted = if doubled { d * 2 } else { d };
    if weighted > 9 { weighted - 9 } else { weighted }
}

/// Computes the Luhn mod-10 checksum digit of a pure-digit string: the
/// digit that, appended on the right, makes the string pass a Luhn check.
pub fn luhn_checksum(digits: &str) -> (res: Result<u8, ValidationError>)
    ensures
        res == spec_luhn_checksum(digits@),
        res matches Ok(d) ==> d <= 9,
{
    let n = digits.unicode_len();
    if n == 0 {
        return Err(ValidationError::Empty);
    }
    let ghost s = digits@;
    let mut k: usize = 0;
    let mut acc: u32 = 0;
    for c in it: digits.chars()
        invariant
            k == it.index(),
            it.seq() == s,
            s == digits@,
            n == s.len(),
            forall|j: int| 0 <= j < k ==> is_digit_char(#[trigger] s[j]),
            acc < 10,
            acc == luhn_sum(digit_vals(s.subrange(0, k as int)), (n - k) % 2 == 0) % 10,
    {
        assert(c == s[k as int]);
        if !is_digit(c) {
            proof {
                lemma_scan_skip(s, digits_ok(), 0, k as int);
            }
            return Err(ValidationError::InvalidCharacter { position: k + 1, found: c });
        }
        let d = digit_value(c);
        let doubled = (n - k) % 2 == 1;
        let contribution = luhn_contribution(d, doubled);
        proof {
            lemma_luhn_prefix_step(s, k as int);
            lemma_mod10_add(luhn_sum(digit_vals(s.subrange(0, k as int)), (n - k) % 2 == 0), acc as int, contribution as int);
        }
        acc = (acc + contribution) % 10;
        k += 1;
    }
    proof {
        lemma_scan_all_ok(s, digits_ok(), 0);
        assert(s.subrange(0, n as int) =~= s);
    }
    Ok(((10 - acc) % 10) as u8)
}


// ─── ISIN — ISO 6166 ─────────────────────────────────────────────────────────

/// An ISIN body character is an ASCII digit or upper-case letter.
pub open spec fn isin_body_ok() -> spec_fn(int, char) -> bool {
    |i: int, c: char| is_alnum_char(c)
}

/// ISO 6166 expansion of one character: a digit stays one digit, a letter
/// becomes the two digits of `10 + (c - 'A')`.
pub open spec fn expand_char(c: char) -> Seq<int> {
    let v = alnum_val(c);
    if v < 10 {
        seq![v]
    } else {
        seq![v / 10, v % 10]
    }
}

/// The expanded digit string of an ISIN body.
pub open spec fn isin_expand(s: Seq<char>) -> Seq<int>
    decreases s.len(),
{
    if s.len() == 0 {
        Seq::empty()
    } else {
        isin_expand(s.drop_last()) + expand_char(s.last())
    }
}

/// The ISIN check character of a body: Luhn over the expanded digits.
pub open spec fn isin_check_char(body: Seq<char>) -> char {
    mod10_check_char(luhn_sum(isin_expand(body), true))
}

/// What [`isin_check_digit`] returns for `body`.
pub open spec fn spec_isin_check_digit(body: Seq<char>) -> Result<char, ValidationError> {
    if body.len() != 11 {
        Err(ValidationError::WrongLength { expected: 11, found: body.len() as usize })
    } else {
        match char_scan(body, isin_body_ok()) {
            Err(e) => Err(e),
            Ok(_) => Ok(isin_check_char(body)),
        }
    }
}

proof fn lemma_luhn_push2(xs: Seq<int>, t: int, u: int, doubled: bool)
    ensures
        luhn_sum(xs + seq![t, u], doubled) == luhn_contrib(u, doubled) + luhn_contrib(t, !doubled)
            + luhn_sum(xs, doubled),
{
    assert(xs + seq![t, u] =~= xs.push(t).push(u));
    lemma_luhn_push(xs.push(t), u, doubled);
    lemma_luhn_push(xs, t, !doubled);
}

proof fn lemma_isin_expand_step(s: Seq<char>, i: int)
    requires
        0 <= i < s.len(),
    ensures
        isin_expand(s.subrange(0, i + 1)) == isin_expand(s.subrange(0, i)) + expand_char(s[i]),
{
    assert(s.subrange(0, i + 1).drop_last() =~= s.subrange(0, i));
}

/// Computes the ISIN check digit (ISO 6166) of an 11-character body.
pub fn isin_check_digit(body: &str) -> (res: Result<char, ValidationError>)
    ensures
        res == spec_isin_check_digit(body@),
        res matches Ok(c) ==> is_digit_char(c),
{
    let found = body.unicode_len();
    if found != 11 {
        return Err(ValidationError::WrongLength { expected: 11, found });
    }
    let ghost s = body@;
    let mut k: usize = 0;
    for c in it: body.chars()
        invariant
            k == it.index(),
            it.seq() == s,
            s == body@,
            s.len() == 11,
            forall|j: int| 0 <= j < k ==> is_alnum_char(#[trigger] s[j]),
    {
        assert(c == s[k as int]);
        if !is_alnum(c) {
            proof {
                lemma_scan_skip(s, isin_body_ok(), 0, k as int);
            }
            return Err(ValidationError::InvalidCharacter { position: k + 1, found: c });
        }
        k += 1;
    }
    proof {
        lemma_scan_all_ok(s, isin_body_ok(), 0);
        assert(s.subrange(0, 11) =~= s);
    }
    // Right-to-left over the expanded digits: the rightmost is doubled.
    let mut sum: u32 = 0;
    let mut doubled = true;
    let mut i: usize = 11;
    while i > 0
        invariant
            i <= 11,
            s == body@,
            s.len() == 11,
            forall|j: int| 0 <= j < 11 ==> is_alnum_char(#[trigger] s[j]),
            sum <= 18 * (11 - i),
            sum + luhn_sum(isin_expand(s.subrange(0, i as int)), doubled) == luhn_sum(
                isin_expand(s),
                true,
            ),
        decreases i,
    {
        let c = body.get_char(i - 1);
        let v = alnum_value(c);
        proof {
            lemma_isin_expand_step(s, i - 1);
        }
        let ghost pre = isin_expand(s.subrange(0, i - 1));
        if v < 10 {
            proof {
                assert(expand_char(c) =~= seq![v as int]);
                assert(pre + seq![v as int] =~= pre.push(v as int));
                lemma_luhn_push(pre, v as int, doubled);
            }
            sum = sum + luhn_contribution(v, doubled);
            doubled = !doubled;
        } else {
            proof {
                lemma_luhn_push2(pre, (v / 10) as int, (v % 10) as int, doubled);
            }
            sum = sum + luhn_contribution(v % 10, doubled);
            doubled = !doubled;
            sum = sum + luhn_contribution(v / 10, doubled);
            doubled = !doubled;
        }
        i -= 1;
    }
    proof {
        assert(s.subrange(0, 0) =~= Seq::<char>::empty());
        assert(s.subrange(0, 11) =~= s);
    }
    Ok(digit_char(10 - (sum % 10)))
}

// ─── CUSIP — ANSI X9.6 ───────────────────────────────────────────────────────

/// A CUSIP body character: a digit, an upper-case letter, `*`, `@` or `#`.
pub open spec fn is_cusip_body_char(c: char) -> bool {
    is_alnum_char(c) || c == '*' || c == '@' || c == '#'
}

/// Every body character must be a CUSIP body character.
pub open spec fn cusip_body_ok() -> spec_fn(int, char) -> bool {
    |i: int, c: char| is_cusip_body_char(c)
}

/// CUSIP character value: base-36 for digits and letters, `* = 36`,
/// `@ = 37`, `# = 38`.
pub open spec fn cusip_val(c: char) -> int {
    if c == '*' {
        36
    } else if c == '@' {
        37
    } else if c == '#' {
        38
    } else {
        alnum_val(c)
    }
}

/// A weighted product folded to the sum of its decimal digits.
pub open spec fn fold_digits(p: int) -> int {
    p / 10 + p % 10
}

/// CUSIP weight of the character at 0-based index `i`: 1 at odd 1-based
/// positions, 2 at even ones.
pub open spec fn cusip_weight(i: int) -> int {
    if i % 2 == 0 {
        1
    } else {
        2
    }
}

/// The CUSIP "double add double" sum of a body, left to right.
pub open spec fn cusip_sum(s: Seq<char>) -> int
    decreases s.len(),
{
    if s.len() == 0 {
        0
    } else {
        cusip_sum(s.drop_last()) + fold_digits(cusip_val(s.last()) * cusip_weight(s.len() - 1))
    }
}

/// The CUSIP check character of a body.
pub open spec fn cusip_check_char(body: Seq<char>) -> char {
    mod10_check_char(cusip_sum(body))
}

/// What [`cusip_check_digit`] returns for `body`.
pub open spec fn spec_cusip_check_digit(body: Seq<char>) -> Result<char, ValidationError> {
    if body.len() != 8 {
        Err(ValidationError::WrongLength { expected: 8, found: body.len() as usize })
    } else {
        match char_scan(body, cusip_body_ok()) {
            Err(e) => Err(e),
            Ok(_) => Ok(cusip_check_char(body)),
        }
    }
}

/// Value of a legal CUSIP body character.
fn cusip_value(c: char) -> (v: u32)
    requires
        is_cusip_body_char(c),
    ensures
        v == cusip_val(c),
        v <= 38,
{
    if c == '*' {
        36
    } else if c == '@' {
        37
    } else if c == '#' {
        38
    } else {
        alnum_value(c)
    }
}

pub fn is_cusip_body(c: char) -> (r: bool)
    ensures
        r == is_cusip_body_char(c),
{
    is_alnum(c) || c == '*' || c == '@' || c == '#'
}

/// Computes the CUSIP check digit (ANSI X9.6) of an 8-character body; the
/// same algorithm gives the CINS check digit.
pub fn cusip_check_digit(body: &str) -> (res: Result<char, ValidationError>)
    ensures
        res == spec_cusip_check_digit(body@),
        res matches Ok(c) ==> is_digit_char(c),
{
    let found = body.unicode_len();
    if found != 8 {
        return Err(ValidationError::WrongLength { expected: 8, found });
    }
    let ghost s = body@;
    let mut k: usize = 0;
    for c in it: body.chars()
        invariant
            k == it.index(),
            it.seq() == s,
            s == body@,
            s.len() == 8,
            forall|j: int| 0 <= j < k ==> is_cusip_body_char(#[trigger] s[j]),
    {
        assert(c == s[k as int]);
        if !is_cusip_body(c) {
            proof {
                lemma_scan_skip(s, cusip_body_ok(), 0, k as int);
            }
            return Err(ValidationError::InvalidCharacter { position: k + 1, found: c });
        }
        k += 1;
    }
    proof {
        lemma_scan_all_ok(s, cusip_body_ok(), 0);
    }
    let mut sum: u32 = 0;
    let mut i: usize = 0;
    while i < 8
        invariant
            i <= 8,
            s == body@,
            s.len() == 8,
            forall|j: int| 0 <= j < 8 ==> is_cusip_body_char(#[trigger] s[j]),
            sum <= 16 * i,
            sum == cusip_sum(s.subrange(0, i as int)),
        decreases 8 - i,
    {
        let c = body.get_char(i);
        let v = cusip_value(c);
        let product = if i % 2 == 0 { v } else { v * 2 };
        proof {
            assert(s.subrange(0, i + 1).drop_last() =~= s.subrange(0, i as int));
            assert(product == cusip_val(c) * cusip_weight(i as int));
        }
        sum = sum + (product / 10 + product % 10);
        i += 1;
    }
    proof {
        assert(s.subrange(0, 8) =~= s);
    }
    Ok(digit_char(10 - (sum % 10)))
}

// ─── SEDOL — London Stock Exchange ───────────────────────────────────────────

/// A SEDOL body character: a digit or an upper-case consonant.
pub open spec fn is_sedol_body_char(c: char) -> bool {
    is_digit_char(c) || is_consonant_char(c)
}

/// Every body character must be a SEDOL body character.
pub open spec fn sedol_body_ok() -> spec_fn(int, char) -> bool {
    |i: int, c: char| is_sedol_body_char(c)
}

/// The fixed SEDOL weight vector `[1, 3, 1, 7, 3, 9]`.
pub open spec fn sedol_weight(i: int) -> int {
    if i == 0 {
        1
    } else if i == 1 {
        3
    } else if i == 2 {
        1
    } else if i == 3 {
        7
    } else if i == 4 {
        3
    } else {
        9
    }
}

/// The SEDOL weighted sum of a body, left to right; products are not folded.
pub open spec fn sedol_sum(s: Seq<char>) -> int
    decreases s.len(),
{
    if s.len() == 0 {
        0
    } else {
        sedol_sum(s.drop_last()) + alnum_val(s.last()) * sedol_weight(s.len() - 1)
    }
}

/// The SEDOL check character of a body.
pub open spec fn sedol_check_char(body: Seq<char>) -> char {
    mod10_check_char(sedol_sum(body))
}

/// What [`sedol_check_digit`] returns for `body`.
pub open spec fn spec_sedol_check_digit(body: Seq<char>) -> Result<char, ValidationError> {
    if body.len() != 6 {
        Err(ValidationError::WrongLength { expected: 6, found: body.len() as usize })
    } else {
        match char_scan(body, sedol_body_ok()) {
            Err(e) => Err(e),
            Ok(_) => Ok(sedol_check_char(body)),
        }
    }
}

pub fn is_sedol_body(c: char) -> (r: bool)
    ensures
        r == is_sedol_body_char(c),
{
    is_digit(c) || is_consonant(c)
}

fn sedol_weighted(v: u32, i: usize) -> (r: u32)
    requires
        v <= 35,
        i < 6,
    ensures
        r == v * sedol_weight(i as int),
        r <= 315,
{
    if i == 0 {
        v
    } else if i == 1 {
        v * 3
    } else if i == 2 {
        v
    } else if i == 3 {
        v * 7
    } else if i == 4 {
        v * 3
    } else {
        v * 9
    }
}

/// Computes the SEDOL check digit of a 6-character body.
pub fn sedol_check_digit(body: &str) -> (res: Result<char, ValidationError>)
    ensures
        res == spec_sedol_check_digit(body@),
        res matches Ok(c) ==> is_digit_char(c),
{
    let found = body.unicode_len();
    if found != 6 {
        return Err(ValidationError::WrongLength { expected: 6, found });
    }
    let ghost s = body@;
    let mut k: usize = 0;
    for c in it: body.chars()
        invariant
            k == it.index(),
            it.seq() == s,
            s == body@,
            s.len() == 6,
            forall|j: int| 0 <= j < k ==> is_sedol_body_char(#[trigger] s[j]),
    {
        assert(c == s[k as int]);
        if !is_sedol_body(c) {
            proof {
                lemma_scan_skip(s, sedol_body_ok(), 0, k as int);
            }
            return Err(ValidationError::InvalidCharacter { position: k + 1, found: c });
        }
        k += 1;
    }
    proof {
        lemma_scan_all_ok(s, sedol_body_ok(), 0);
    }
    let mut sum: u32 = 0;
    let mut i: usize = 0;
    while i < 6
        invariant
            i <= 6,
            s == body@,
            s.len() == 6,
            forall|j: int| 0 <= j < 6 ==> is_sedol_body_char(#[trigger] s[j]),
            sum <= 315 * i,
            sum == sedol_sum(s.subrange(0, i as int)),
        decreases 6 - i,
    {
        let c = body.get_char(i);
        let v = alnum_value(c);
        proof {
            assert(s.subrange(0, i + 1).drop_last() =~= s.subrange(0, i as int));
        }
        sum = sum + sedol_weighted(v, i);
        i += 1;
    }
    proof {
        assert(s.subrange(0, 6) =~= s);
    }
    Ok(digit_char(10 - (sum % 10)))
}

// ─── LEI — ISO 17442 / ISO 7064 MOD 97-10 ────────────────────────────────────

/// An LEI body character is an ASCII digit or upper-case letter.
pub open spec fn lei_body_ok() -> spec_fn(int, char) -> bool {
    |i: int, c: char| is_alnum_char(c)
}

/// The integer read from the ISO 7064 expansion of `s`: each digit
/// contributes one decimal place, each letter the two digits of
/// `10 + (c - 'A')`.
pub open spec fn expanded_number(s: Seq<char>) -> int
    decreases s.len(),
{
    if s.len() == 0 {
        0
    } else {
        let v = alnum_val(s.last());
        expanded_number(s.drop_last()) * (if v < 10 { 10int } else { 100int }) + v
    }
}

/// The two-digit MOD 97-10 check value of an LEI body: `98 - (M mod 97)`
/// where `M` is the expansion of the body followed by `"00"`.
pub open spec fn lei_check_value(body: Seq<char>) -> int {
    98 - (expanded_number(body) * 100) % 97
}

/// The two LEI check characters of a body.
pub open spec fn lei_check_chars(body: Seq<char>) -> (char, char) {
    (digit_char_of(lei_check_value(body) / 10), digit_char_of(lei_check_value(body) % 10))
}

/// What [`lei_check_digits`] returns for `body`, as a pair.
pub open spec fn spec_lei_check_digits(body: Seq<char>) -> Result<(char, char), ValidationError> {
    if body.len() != 18 {
        Err(ValidationError::WrongLength { expected: 18, found: body.len() as usize })
    } else {
        match char_scan(body, lei_body_ok()) {
            Err(e) => Err(e),
            Ok(_) => Ok(lei_check_chars(body)),
        }
    }
}

proof fn lemma_mod97_step(total: int, acc: int, m: int, v: int)
    requires
        acc == total % 97,
    ensures
        (acc * m + v) % 97 == (total * m + v) % 97,
{
    vstd::arithmetic::div_mod::lemma_mul_mod_noop_left(total, m, 97);
    vstd::arithmetic::div_mod::lemma_add_mod_noop(acc * m, v, 97);
    vstd::arithmetic::div_mod::lemma_add_mod_noop(total * m, v, 97);
}

/// Computes the two LEI check digits (ISO 7064 MOD 97-10) of an
/// 18-character body. The modulus is taken by a streaming recurrence, so
/// the wide integer is never formed.
pub fn lei_check_digits(body: &str) -> (res: Result<[char; 2], ValidationError>)
    ensures
        match res {
            Ok(d) => spec_lei_check_digits(body@) == Ok::<(char, char), ValidationError>((d[0], d[1])),
            Err(e) => spec_lei_check_digits(body@) == Err::<(char, char), ValidationError>(e),
        },
        res matches Ok(d) ==> is_digit_char(d[0]) && is_digit_char(d[1]),
{
    let found = body.unicode_len();
    if found != 18 {
        return Err(ValidationError::WrongLength { expected: 18, found });
    }
    let ghost s = body@;
    let mut k: usize = 0;
    for c in it: body.chars()
        invariant
            k == it.index(),
            it.seq() == s,
            s == body@,
            s.len() == 18,
            forall|j: int| 0 <= j < k ==> is_alnum_char(#[trigger] s[j]),
    {
        assert(c == s[k as int]);
        if !is_alnum(c) {
            proof {
                lemma_scan_skip(s, lei_body_ok(), 0, k as int);
            }
            return Err(ValidationError::InvalidCharacter { position: k + 1, found: c });
        }
        k += 1;
    }
    proof {
        lemma_scan_all_ok(s, lei_body_ok(), 0);
    }
    let mut acc: u32 = 0;
    let mut i: usize = 0;
    while i < 18
        invariant
            i <= 18,
            s == body@,
            s.len() == 18,
            forall|j: int| 0 <= j < 18 ==> is_alnum_char(#[trigger] s[j]),
            acc < 97,
            acc == expanded_number(s.subrange(0, i as int)) % 97,
        decreases 18 - i,
    {
        let c = body.get_char(i);
        let value = alnum_value(c);
        proof {
            assert(s.subrange(0, i + 1).drop_last() =~= s.subrange(0, i as int));
        }
        if value < 10 {
            proof {
                lemma_mod97_step(expanded_number(s.subrange(0, i as int)), acc as int, 10, value as int);
            }
            acc = (acc * 10 + value) % 97;
        } else {
            proof {
                lemma_mod97_step(expanded_number(s.subrange(0, i as int)), acc as int, 100, value as int);
            }
            acc = (acc * 100 + value) % 97;
        }
        i += 1;
    }
    proof {
        assert(s.subrange(0, 18) =~= s);
        lemma_mod97_step(expanded_number(s), acc as int, 100, 0);
    }
    // Append the two check positions as the literal "00".
    acc = (acc * 100) % 97;
    let check = 98 - acc;
    Ok([digit_char(check / 10), digit_char(check % 10)])
}

// ─── FIGI — ANSI X9.145 ──────────────────────────────────────────────────────

/// A FIGI body character: a digit or an upper-case consonant.
pub open spec fn is_figi_body_char(c: char) -> bool {
    is_digit_char(c) || is_consonant_char(c)
}

/// Every body character must be a FIGI body character.
pub open spec fn figi_body_ok() -> spec_fn(int, char) -> bool {
    |i: int, c: char| is_figi_body_char(c)
}

/// The FIGI sum of a body scanned right-to-left: the rightmost character
/// has weight 1 when `!doubled`, weights alternate 1, 2, 1, ..., and every
/// decimal digit of each weighted product is summed.
pub open spec fn figi_sum(s: Seq<char>, doubled: bool) -> int
    decreases s.len(),
{
    if s.len() == 0 {
        0
    } else {
        fold_digits(alnum_val(s.last()) * (if doubled { 2int } else { 1int })) + figi_sum(
            s.drop_last(),
            !doubled,
        )
    }
}

/// The FIGI check character of a body.
pub open spec fn figi_check_char(body: Seq<char>) -> char {
    mod10_check_char(figi_sum(body, false))
}

/// What [`figi_check_digit`] returns for `body`.
pub open spec fn spec_figi_check_digit(body: Seq<char>) -> Result<char, ValidationError> {
    if body.len() != 11 {
        Err(ValidationError::WrongLength { expected: 11, found: body.len() as usize })
    } else {
        match char_scan(body, figi_body_ok()) {
            Err(e) => Err(e),
            Ok(_) => Ok(figi_check_char(body)),
        }
    }
}

pub fn is_figi_body(c: char) -> (r: bool)
    ensures
        r == is_figi_body_char(c),
{
    is_digit(c) || is_consonant(c)
}

/// Computes the FIGI check digit (ANSI X9.145) of an 11-character body.
pub fn figi_check_digit(body: &str) -> (res: Result<char, ValidationError>)
    ensures
        res == spec_figi_check_digit(body@),
        res matches Ok(c) ==> is_digit_char(c),
{
    let found = body.unicode_len();
    if found != 11 {
        return Err(ValidationError::WrongLength { expected: 11, found });
    }
    let ghost s = body@;
    let mut k: usize = 0;
    for c in it: body.chars()
        invariant
            k == it.index(),
            it.seq() == s,
            s == body@,
            s.len() == 11,
            forall|j: int| 0 <= j < k ==> is_figi_body_char(#[trigger] s[j]),
    {
        assert(c == s[k as int]);
        if !is_figi_body(c) {
            proof {
                lemma_scan_skip(s, figi_body_ok(), 0, k as int);
            }
            return Err(ValidationError::InvalidCharacter { position: k + 1, found: c });
        }
        k += 1;
    }
    proof {
        lemma_scan_all_ok(s, figi_body_ok(), 0);
        assert(s.subrange(0, 11) =~= s);
    }
    let mut sum: u32 = 0;
    let mut doubled = false;
    let mut i: usize = 11;
    while i > 0
        invariant
            i <= 11,
            s == body@,
            s.len() == 11,
            forall|j: int| 0 <= j < 11 ==> is_figi_body_char(#[trigger] s[j]),
            sum <= 16 * (11 - i),
            sum + figi_sum(s.subrange(0, i as int), doubled) == figi_sum(s, false),
        decreases i,
    {
        let c = body.get_char(i - 1);
        let v = alnum_value(c);
        let product = if doubled { v * 2 } else { v };
        proof {
            assert(s.subrange(0, i as int).drop_last() =~= s.subrange(0, i - 1));
        }
        sum = sum + (product / 10 + product % 10);
        doubled = !doubled;
        i -= 1;
    }
    proof {
        assert(s.subrange(0, 0) =~= Seq::<char>::empty());
    }
    Ok(digit_char(10 - (sum % 10)))
}

// ─── What the check digits are ───────────────────────────────────────────────

/// The Luhn total of the first `i` digits of `t`, each weighted by its
/// distance from the right end of `t`: the last digit of `t` counts once,
/// the one before it twice, and so on alternately; a doubled digit counts
/// with the sum of the decimal digits of its double.
pub open spec fn luhn_total_from_left(t: Seq<char>, i: int) -> int
    decreases i,
{
    if i <= 0 || i > t.len() {
        0
    } else {
        let d = t[i - 1] as int - '0' as int;
        let term = if (t.len() - i) % 2 == 1 {
            (2 * d) / 10 + (2 * d) % 10
        } else {
            d
        };
        luhn_total_from_left(t, i - 1) + term
    }
}

/// `t` passes the Luhn check: its Luhn total is a multiple of 10.
pub open spec fn passes_luhn(t: Seq<char>) -> bool {
    luhn_total_from_left(t, t.len() as int) % 10 == 0
}

proof fn lemma_luhn_total_is_luhn_sum(t: Seq<char>, i: int)
    requires
        0 <= i <= t.len(),
        forall|j: int| 0 <= j < t.len() ==> '0' <= #[trigger] t[j] <= '9',
    ensures
        luhn_total_from_left(t, i) == luhn_sum(digit_vals(t.subrange(0, i)), (t.len() - i) % 2 == 1),
    decreases i,
{
    if i > 0 {
        lemma_luhn_total_is_luhn_sum(t, i - 1);
        assert(digit_vals(t.subrange(0, i)).drop_last() =~= digit_vals(t.subrange(0, i - 1)));
        assert(digit_vals(t.subrange(0, i)).last() == t[i - 1] as int - '0' as int);
    } else {
        assert(digit_vals(t.subrange(0, 0)) =~= Seq::<int>::empty());
    }
}

/// For every non-empty string of decimal digits, `luhn_checksum` returns the
/// digit that, appended on the right, makes the whole string pass the Luhn
/// check, whatever the string's length. It is the only such digit.
pub proof fn law_luhn_checksum_completes(s: Seq<char>)
    requires
        s.len() > 0,
        forall|j: int| 0 <= j < s.len() ==> '0' <= #[trigger] s[j] <= '9',
    ensures
        spec_luhn_checksum(s) matches Ok(d) && d < 10 && passes_luhn(s.push(('0' as int + d) as char)),
        forall|e: int| 0 <= e < 10 && passes_luhn(#[trigger] s.push(('0' as int + e) as char)) ==> spec_luhn_checksum(s)
            == Ok::<u8, ValidationError>(e as u8),
{
    assert forall|j: int| 0 <= j < s.len() implies #[trigger] is_digit_char(s[j]) by {}
    lemma_scan_all_ok(s, digits_ok(), 0);
    let x = luhn_sum(digit_vals(s), true);
    assert forall|e: int| 0 <= e < 10 implies #[trigger] luhn_total_from_left(
        s.push(('0' as int + e) as char),
        (s.len() + 1) as int,
    ) == x + e by {
        let t = s.push(('0' as int + e) as char);
        assert forall|j: int| 0 <= j < t.len() implies '0' <= #[trigger] t[j] <= '9' by {
            if j < s.len() {
                assert(t[j] == s[j]);
            }
        }
        lemma_luhn_total_is_luhn_sum(t, t.len() as int);
        assert(t.subrange(0, t.len() as int) =~= t);
        assert(digit_vals(t).drop_last() =~= digit_vals(s));
    }
    assert(x >= 0) by {
        lemma_luhn_sum_nonneg(digit_vals(s), true);
    }
}

proof fn lemma_luhn_sum_nonneg(ds: Seq<int>, doubled: bool)
    requires
        forall|j: int| 0 <= j < ds.len() ==> 0 <= #[trigger] ds[j] <= 9,
    ensures
        luhn_sum(ds, doubled) >= 0,
    decreases ds.len(),
{
    if ds.len() > 0 {
        lemma_luhn_sum_nonneg(ds.drop_last(), !doubled);
    }
}

/// The CUSIP check digit of an 8-character body is computed over all eight
/// positions: the values `0-9`, `A-Z` = 10-35, `*` = 36, `@` = 37, `#` = 38
/// are weighted 1, 2, 1, 2, 1, 2, 1, 2 from the left, each product counts
/// with the sum of its decimal digits, and the check digit is
/// `(10 - total mod 10) mod 10`.
pub proof fn law_cusip_check_digit(body: Seq<char>)
    requires
        body.len() == 8,
        forall|j: int|
            0 <= j < 8 ==> ('0' <= #[trigger] body[j] <= '9' || 'A' <= body[j] <= 'Z' || body[j] == '*'
                || body[j] == '@' || body[j] == '#'),
    ensures
        spec_cusip_check_digit(body) == Ok::<char, ValidationError>(
            ({
                let v = |c: char|
                    if '0' <= c <= '9' {
                        c as int - '0' as int
                    } else if 'A' <= c <= 'Z' {
                        c as int - 'A' as int + 10
                    } else if c == '*' {
                        36int
                    } else if c == '@' {
                        37int
                    } else {
                        38int
                    };
                let f = |p: int| p / 10 + p % 10;
                let total = f(v(body[0])) + f(2 * v(body[1])) + f(v(body[2])) + f(2 * v(body[3])) + f(
                    v(body[4]),
                ) + f(2 * v(body[5])) + f(v(body[6])) + f(2 * v(body[7]));
                ('0' as int + (10 - total % 10) % 10) as char
            }),
        ),
{
    assert forall|j: int| 0 <= j < 8 implies #[trigger] is_cusip_body_char(body[j]) by {}
    lemma_scan_all_ok(body, cusip_body_ok(), 0);
    let s7 = body.subrange(0, 7);
    let s6 = body.subrange(0, 6);
    let s5 = body.subrange(0, 5);
    let s4 = body.subrange(0, 4);
    let s3 = body.subrange(0, 3);
    let s2 = body.subrange(0, 2);
    let s1 = body.subrange(0, 1);
    assert(body.drop_last() =~= s7);
    assert(s7.drop_last() =~= s6);
    assert(s6.drop_last() =~= s5);
    assert(s5.drop_last() =~= s4);
    assert(s4.drop_last() =~= s3);
    assert(s3.drop_last() =~= s2);
    assert(s2.drop_last() =~= s1);
    assert(s1.drop_last() =~= Seq::<char>::empty());
    assert(cusip_sum(Seq::<char>::empty()) == 0);
    assert(s1.last() == body[0]);
    assert(cusip_sum(s1) == fold_digits(cusip_val(body[0])));
    assert(cusip_sum(s2) == cusip_sum(s1) + fold_digits(cusip_val(body[1]) * 2));
    assert(cusip_sum(s3) == cusip_sum(s2) + fold_digits(cusip_val(body[2])));
    assert(cusip_sum(s4) == cusip_sum(s3) + fold_digits(cusip_val(body[3]) * 2));
    assert(cusip_sum(s5) == cusip_sum(s4) + fold_digits(cusip_val(body[4])));
    assert(cusip_sum(s6) == cusip_sum(s5) + fold_digits(cusip_val(body[5]) * 2));
    assert(cusip_sum(s7) == cusip_sum(s6) + fold_digits(cusip_val(body[6])));
    assert(cusip_sum(body) == cusip_sum(s7) + fold_digits(cusip_val(body[7]) * 2));
}

/// The SEDOL check digit of a 6-character body of digits and consonants:
/// the values `0-9`, `B-Z` = 11-35 are weighted 1, 3, 1, 7, 3, 9 from the
/// left, and the check digit is `(10 - total mod 10) mod 10`.
pub proof fn law_sedol_check_digit(body: Seq<char>)
    requires
        body.len() == 6,
        forall|j: int|
            0 <= j < 6 ==> ('0' <= #[trigger] body[j] <= '9' || ('A' <= body[j] <= 'Z' && body[j] != 'A'
                && body[j] != 'E' && body[j] != 'I' && body[j] != 'O' && body[j] != 'U')),
    ensures
        spec_sedol_check_digit(body) == Ok::<char, ValidationError>(
            ({
                let v = |c: char|
                    if '0' <= c <= '9' {
                        c as int - '0' as int
                    } else {
                        c as int - 'A' as int + 10
                    };
                let total = 1 * v(body[0]) + 3 * v(body[1]) + 1 * v(body[2]) + 7 * v(body[3]) + 3 * v(
                    body[4],
                ) + 9 * v(body[5]);
                ('0' as int + (10 - total % 10) % 10) as char
            }),
        ),
{
    assert forall|j: int| 0 <= j < 6 implies #[trigger] is_sedol_body_char(body[j]) by {}
    lemma_scan_all_ok(body, sedol_body_ok(), 0);
    let s5 = body.subrange(0, 5);
    let s4 = body.subrange(0, 4);
    let s3 = body.subrange(0, 3);
    let s2 = body.subrange(0, 2);
    let s1 = body.subrange(0, 1);
    assert(body.drop_last() =~= s5);
    assert(s5.drop_last() =~= s4);
    assert(s4.drop_last() =~= s3);
    assert(s3.drop_last() =~= s2);
    assert(s2.drop_last() =~= s1);
    assert(s1.drop_last() =~= Seq::<char>::empty());
    assert(sedol_sum(Seq::<char>::empty()) == 0);
    assert(s1.last() == body[0]);
    assert(sedol_sum(s1) == alnum_val(body[0]));
    assert(sedol_sum(s2) == sedol_sum(s1) + alnum_val(body[1]) * 3);
    assert(sedol_sum(s3) == sedol_sum(s2) + alnum_val(body[2]));
    assert(sedol_sum(s4) == sedol_sum(s3) + alnum_val(body[3]) * 7);
    assert(sedol_sum(s5) == sedol_sum(s4) + alnum_val(body[4]) * 3);
    assert(sedol_sum(body) == sedol_sum(s5) + alnum_val(body[5]) * 9);
}

} // verus!
