//! Character-class scanners and literal matching: the grammar primitives that
//! every field parser is built from.  All scanning is single-pass and
//! zero-copy: a scanner hands back a borrowed slice of its input and the
//! remaining input after it.
use vstd::prelude::*;

use crate::parser::error::{ErrorKind, ErrorKindV, ParseError, kind_view};

verus! {

/// The character classes of the wire grammar.
#[derive(Debug, Clone, Copy, PartialEq, Eq)]
pub enum CharClass {
    /// Letters, digits, `-`, `_`, `.`: badge names, ids, emote ids.
    Name,
    /// Letters, digits, `_`: user names.
    Username,
    /// Letters, digits, `-`, `_`, `\`: badge version strings.
    Version,
    /// Letters, digits, `-`, `:`, `.`: flag values.
    Flag,
    /// Decimal digits.
    Digit,
    /// Letters only.
    Alpha,
    /// Letters and digits.
    Alnum,
    /// Whitespace: space, tab, carriage return, line feed.
    Space,
    /// Letters, digits, `_`, `!`, `@`, `.`: the sender prefix.
    Prefix,
    /// Anything up to a `;`: a reply-parent message body.
    Body,
    /// Digits and upper-case `A` through `F`: color hex digits.
    HexUpper,
}

pub open spec fn is_alphanum(c: char) -> bool {
    ('a' <= c && c <= 'z') || ('A' <= c && c <= 'Z') || ('0' <= c && c <= '9')
}

pub open spec fn in_class(k: CharClass, c: char) -> bool {
    match k {
        CharClass::Name => c == '-' || c == '_' || c == '.' || is_alphanum(c),
        CharClass::Username => c == '_' || is_alphanum(c),
        CharClass::Version => c == '-' || c == '_' || c == '\\' || is_alphanum(c),
        CharClass::Flag => c == '-' || c == ':' || c == '.' || is_alphanum(c),
        CharClass::Digit => '0' <= c && c <= '9',
        CharClass::Alpha => ('a' <= c && c <= 'z') || ('A' <= c && c <= 'Z'),
        CharClass::Alnum => is_alphanum(c),
        CharClass::Space => c == ' ' || c == '\t' || c == '\r' || c == '\n',
        CharClass::Prefix => c == '_' || c == '!' || c == '@' || c == '.' || is_alphanum(c),
        CharClass::Body => c != ';',
        CharClass::HexUpper => ('0' <= c && c <= '9') || ('A' <= c && c <= 'F'),
    }
}

/// Whether `c` is an ASCII letter or digit.
pub fn is_alphanum_exec(c: char) -> (r: bool)
    ensures
        r == is_alphanum(c),
{
    ('a' <= c && c <= 'z') || ('A' <= c && c <= 'Z') || ('0' <= c && c <= '9')
}

/// Whether `c` belongs to the class `k`.
pub fn char_in_class(k: CharClass, c: char) -> (r: bool)
    ensures
        r == in_class(k, c),
{
    match k {
        CharClass::Name => c == '-' || c == '_' || c == '.' || is_alphanum_exec(c),
        CharClass::Username => c == '_' || is_alphanum_exec(c),
        CharClass::Version => c == '-' || c == '_' || c == '\\' || is_alphanum_exec(c),
        CharClass::Flag => c == '-' || c == ':' || c == '.' || is_alphanum_exec(c),
        CharClass::Digit => '0' <= c && c <= '9',
        CharClass::Alpha => ('a' <= c && c <= 'z') || ('A' <= c && c <= 'Z'),
        CharClass::Alnum => is_alphanum_exec(c),
        CharClass::Space => c == ' ' || c == '\t' || c == '\r' || c == '\n',
        CharClass::Prefix => c == '_' || c == '!' || c == '@' || c == '.' || is_alphanum_exec(c),
        CharClass::Body => c != ';',
        CharClass::HexUpper => ('0' <= c && c <= '9') || ('A' <= c && c <= 'F'),
    }
}

/// The length of the longest prefix of `s` whose characters all belong to
/// class `k`.
pub open spec fn class_prefix_len(k: CharClass, s: Seq<char>) -> nat
    decreases s.len(),
{
    if s.len() == 0 || !in_class(k, s[0]) {
        0
    } else {
        1 + class_prefix_len(k, s.skip(1))
    }
}

/// `class_prefix_len` is the unique boundary: everything before it is in the
/// class and it is either the end of the input or the first character outside
/// the class.
pub proof fn lemma_class_prefix_len(k: CharClass, s: Seq<char>, i: int)
    requires
        0 <= i <= s.len(),
        forall|j: int| 0 <= j < i ==> in_class(k, #[trigger] s[j]),
        i == s.len() || !in_class(k, s[i]),
    ensures
        class_prefix_len(k, s) == i,
    decreases i,
{
    if i == 0 {
    } else {
        assert(in_class(k, s[0]));
        let t = s.skip(1);
        assert forall|j: int| 0 <= j < i - 1 implies in_class(k, #[trigger] t[j]) by {
            assert(t[j] == s[j + 1]);
        }
        if i < s.len() {
            assert(t[i - 1] == s[i]);
        }
        lemma_class_prefix_len(k, t, i - 1);
    }
}

/// The number of leading characters of `s` that belong to class `k`.
pub fn take_class(s: &str, k: CharClass) -> (n: usize)
    ensures
        n == class_prefix_len(k, s@),
        n <= s@.len(),
{
    let len = s.unicode_len();
    let mut n: usize = 0;
    while n < len
        invariant
            0 <= n <= len,
            len == s@.len(),
            forall|j: int| 0 <= j < n ==> in_class(k, #[trigger] s@[j]),
        decreases len - n,
    {
        let c = s.get_char(n);
        if !char_in_class(k, c) {
            proof {
                lemma_class_prefix_len(k, s@, n as int);
            }
            return n;
        }
        n += 1;
    }
    proof {
        lemma_class_prefix_len(k, s@, n as int);
    }
    n
}

/// What scanning class `k` with a one-or-more scanner returns on `s`: the
/// remaining input and the scanned slice, or nothing when the first character
/// is already outside the class.
pub open spec fn spec_scan1(k: CharClass, s: Seq<char>) -> Option<(Seq<char>, Seq<char>)> {
    let n = class_prefix_len(k, s) as int;
    if n >= 1 {
        Some((s.skip(n), s.take(n)))
    } else {
        None
    }
}

/// What scanning class `k` with a zero-or-more scanner returns on `s`: the
/// remaining input and the (possibly empty) scanned slice.
pub open spec fn spec_scan0(k: CharClass, s: Seq<char>) -> (Seq<char>, Seq<char>) {
    let n = class_prefix_len(k, s) as int;
    (s.skip(n), s.take(n))
}

/// Scan one or more characters of class `k` from the front of `i`; fail with
/// `kind` if the first character is outside the class.
pub fn scan1<'a>(i: &'a str, k: CharClass, kind: ErrorKind) -> (r: Result<
    (&'a str, &'a str),
    ParseError<'a>,
>)
    ensures
        match r {
            Ok((rest, v)) => spec_scan1(k, i@) == Some((rest@, v@)),
            Err(e) => spec_scan1(k, i@) is None && e@ =~= seq![(i@, kind_view(kind))],
        },
{
    let n = take_class(i, k);
    if n == 0 {
        Err(ParseError::leaf(i, kind))
    } else {
        let len = i.unicode_len();
        let v = i.substring_char(0, n);
        let rest = i.substring_char(n, len);
        Ok((rest, v))
    }
}

/// Scan zero or more characters of class `k` from the front of `i`.
pub fn scan0<'a>(i: &'a str, k: CharClass) -> (r: (&'a str, &'a str))
    ensures
        spec_scan0(k, i@) == (r.0@, r.1@),
{
    let n = take_class(i, k);
    let len = i.unicode_len();
    let v = i.substring_char(0, n);
    let rest = i.substring_char(n, len);
    (rest, v)
}

/// What matching the literal `t` at the front of `s` returns: the remaining
/// input, or nothing when `s` does not start with `t`.
pub open spec fn spec_tag(s: Seq<char>, t: Seq<char>) -> Option<Seq<char>> {
    if t.len() <= s.len() && s.take(t.len() as int) == t {
        Some(s.skip(t.len() as int))
    } else {
        None
    }
}

/// Match the literal `t` at the front of `i`; fail with a `Tag` error
/// otherwise.
pub fn expect_tag<'a>(i: &'a str, t: &str) -> (r: Result<&'a str, ParseError<'a>>)
    ensures
        match r {
            Ok(rest) => spec_tag(i@, t@) == Some(rest@),
            Err(e) => spec_tag(i@, t@) is None && e@ =~= seq![(i@, ErrorKindV::Tag)],
        },
{
    let tlen = t.unicode_len();
    let ilen = i.unicode_len();
    if tlen > ilen {
        return Err(ParseError::leaf(i, ErrorKind::Tag));
    }
    let mut j: usize = 0;
    while j < tlen
        invariant
            0 <= j <= tlen,
            tlen <= ilen,
            tlen == t@.len(),
            ilen == i@.len(),
            forall|m: int| 0 <= m < j ==> i@[m] == t@[m],
        decreases tlen - j,
    {
        if i.get_char(j) != t.get_char(j) {
            assert(i@.take(tlen as int)[j as int] != t@[j as int]);
            return Err(ParseError::leaf(i, ErrorKind::Tag));
        }
        j += 1;
    }
    assert(i@.take(tlen as int) =~= t@);
    Ok(i.substring_char(tlen, ilen))
}


/// The numeric value of a decimal digit character.
pub open spec fn digit_val(c: char) -> nat {
    ((c as u32) - 48) as nat
}

/// The numeric value of a run of decimal digit characters, most significant
/// first.
pub open spec fn digits_val(s: Seq<char>) -> nat
    decreases s.len(),
{
    if s.len() == 0 {
        0
    } else {
        digits_val(s.drop_last()) * 10 + digit_val(s.last())
    }
}

pub open spec fn pow10(n: nat) -> nat
    decreases n,
{
    if n == 0 {
        1
    } else {
        10 * pow10((n - 1) as nat)
    }
}

/// A run of `n` digits is worth less than ten to the `n`.
pub proof fn lemma_digits_val_bound(s: Seq<char>)
    requires
        forall|j: int| 0 <= j < s.len() ==> in_class(CharClass::Digit, #[trigger] s[j]),
    ensures
        digits_val(s) < pow10(s.len()),
    decreases s.len(),
{
    if s.len() > 0 {
        let t = s.drop_last();
        assert(forall|j: int| 0 <= j < t.len() ==> in_class(CharClass::Digit, #[trigger] t[j]));
        lemma_digits_val_bound(t);
        assert(in_class(CharClass::Digit, s[s.len() - 1]));
        assert(digit_val(s.last()) <= 9);
    }
}

/// A prefix of a digit run is worth no more than the whole run.
pub proof fn lemma_digits_val_prefix_le(s: Seq<char>, i: int)
    requires
        0 <= i <= s.len(),
    ensures
        digits_val(s.take(i)) <= digits_val(s),
    decreases s.len() - i,
{
    if i < s.len() {
        lemma_digits_val_prefix_le(s, i + 1);
        let t = s.take(i + 1);
        assert(t.drop_last() =~= s.take(i));
        assert(digits_val(s.take(i)) <= digits_val(t));
    } else {
        assert(s.take(i) =~= s);
    }
}

/// Extending a digit run by one digit multiplies its value by ten and adds
/// the digit.
proof fn lemma_digits_val_step(s: Seq<char>, i: int)
    requires
        0 <= i < s.len(),
    ensures
        digits_val(s.take(i + 1)) == digits_val(s.take(i)) * 10 + digit_val(s[i]),
{
    let t = s.take(i + 1);
    assert(t.drop_last() =~= s.take(i));
    assert(t.last() == s[i]);
}

/// Decode a run of decimal digits as a `u32`; `None` when the value does not
/// fit.
pub fn parse_u32(d: &str) -> (r: Option<u32>)
    requires
        forall|j: int| 0 <= j < d@.len() ==> in_class(CharClass::Digit, #[trigger] d@[j]),
    ensures
        match r {
            Some(v) => v == digits_val(d@),
            None => digits_val(d@) > u32::MAX,
        },
{
    let len = d.unicode_len();
    let mut acc: u32 = 0;
    let mut i: usize = 0;
    while i < len
        invariant
            0 <= i <= len,
            len == d@.len(),
            forall|j: int| 0 <= j < d@.len() ==> in_class(CharClass::Digit, #[trigger] d@[j]),
            acc == digits_val(d@.take(i as int)),
        decreases len - i,
    {
        let c = d.get_char(i);
        assert(in_class(CharClass::Digit, d@[i as int]));
        let dv: u32 = (c as u32) - 48;
        proof {
            lemma_digits_val_step(d@, i as int);
        }
        if acc > 429496729 || (acc == 429496729 && dv > 5) {
            proof {
                lemma_digits_val_prefix_le(d@, i + 1);
            }
            return None;
        }
        acc = acc * 10 + dv;
        i += 1;
    }
    proof {
        assert(d@.take(len as int) =~= d@);
    }
    Some(acc)
}

/// Decode the first ten characters of a run of decimal digits as whole
/// seconds.
pub fn parse_secs(d: &str) -> (r: u64)
    requires
        d@.len() >= 10,
        forall|j: int| 0 <= j < d@.len() ==> in_class(CharClass::Digit, #[trigger] d@[j]),
    ensures
        r == digits_val(d@.take(10)),
{
    proof {
        assert(forall|j: int|
            0 <= j < d@.take(10).len() ==> in_class(CharClass::Digit, #[trigger] d@.take(10)[j]));
        lemma_digits_val_bound(d@.take(10));
        assert(pow10(10) == 10000000000) by {
            reveal_with_fuel(pow10, 11);
        }
    }
    let mut acc: u64 = 0;
    let mut i: usize = 0;
    while i < 10
        invariant
            0 <= i <= 10,
            d@.len() >= 10,
            forall|j: int| 0 <= j < d@.len() ==> in_class(CharClass::Digit, #[trigger] d@[j]),
            acc == digits_val(d@.take(i as int)),
            digits_val(d@.take(10)) < 10000000000,
        decreases 10 - i,
    {
        let c = d.get_char(i);
        assert(in_class(CharClass::Digit, d@[i as int]));
        let dv: u64 = (c as u64) - 48;
        proof {
            lemma_digits_val_step(d@, i as int);
            lemma_digits_val_prefix_le(d@.take(10), i + 1);
            assert(d@.take(10).take(i + 1) =~= d@.take(i + 1));
        }
        acc = acc * 10 + dv;
        i += 1;
    }
    acc
}

/// The numeric value of an upper-case hexadecimal digit character.
pub open spec fn hex_val(c: char) -> nat {
    if '0' <= c && c <= '9' {
        ((c as u32) - 48) as nat
    } else {
        ((c as u32) - 65 + 10) as nat
    }
}

/// The byte encoded by two upper-case hexadecimal digit characters.
pub open spec fn hex_byte_val(hi: char, lo: char) -> nat {
    hex_val(hi) * 16 + hex_val(lo)
}

/// Decode two upper-case hexadecimal digit characters as one byte.
pub fn hex_byte(hi: char, lo: char) -> (r: u8)
    requires
        in_class(CharClass::HexUpper, hi),
        in_class(CharClass::HexUpper, lo),
    ensures
        r == hex_byte_val(hi, lo),
{
    let h: u32 = if '0' <= hi && hi <= '9' {
        (hi as u32) - 48
    } else {
        (hi as u32) - 65 + 10
    };
    let l: u32 = if '0' <= lo && lo <= '9' {
        (lo as u32) - 48
    } else {
        (lo as u32) - 65 + 10
    };
    (h * 16 + l) as u8
}

} // verus!
