//! Text handling that rests on the standard library.
//!
//! Three functions here are taken from `std` without proof: [`str_gt`], [`str_trim`]
//! and [`parse_u32`]. Each is a single call whose contract restates the standard
//! library's documentation over sequences of characters. The rest of the module, and
//! of the crate, is verified against those three contracts.

use vstd::prelude::*;

verus! {

/// Holds when `a` comes strictly after `b` in the lexicographic order of their code
/// points: at the first position where they differ `a` has the larger code point, or
/// `b` is a proper prefix of `a`.
pub open spec fn lex_greater(a: Seq<char>, b: Seq<char>) -> bool
    decreases a.len(),
{
    if a.len() == 0 {
        false
    } else if b.len() == 0 {
        true
    } else if a[0] == b[0] {
        lex_greater(a.drop_first(), b.drop_first())
    } else {
        a[0] > b[0]
    }
}

/// `a > b` on string slices.
///
/// Trusted: `str`'s `PartialOrd` compares lexicographically by byte values, which the
/// standard library documents as the order of the code points. The contract states
/// that order as [`lex_greater`].
#[verifier::external_body]
pub(crate) fn str_gt(a: &str, b: &str) -> (greater: bool)
    ensures
        greater == lex_greater(a@, b@),
{
    a > b
}

/// Whether `c` is white space to the standard library's `str::trim`, that is, whether
/// it has the Unicode property `White_Space`.
pub uninterp spec fn is_white_space(c: char) -> bool;

/// `s` without its leading white space.
pub open spec fn trimmed_start(s: Seq<char>) -> Seq<char>
    decreases s.len(),
{
    if s.len() > 0 && is_white_space(s.first()) {
        trimmed_start(s.drop_first())
    } else {
        s
    }
}

/// `s` without its trailing white space.
pub open spec fn trimmed_end(s: Seq<char>) -> Seq<char>
    decreases s.len(),
{
    if s.len() > 0 && is_white_space(s.last()) {
        trimmed_end(s.drop_last())
    } else {
        s
    }
}

/// `s` without its leading and trailing white space.
pub open spec fn trimmed(s: Seq<char>) -> Seq<char> {
    trimmed_end(trimmed_start(s))
}

/// `s.trim()`.
///
/// Trusted: the standard library documents `str::trim` as returning the slice of `s`
/// with leading and trailing white space removed, where white space is the Unicode
/// property `White_Space`. The contract says that the result is a contiguous part of
/// `s` outside of which `s` holds nothing but white space, and that the result neither
/// starts nor ends with white space.
#[verifier::external_body]
pub(crate) fn str_trim(s: &str) -> (inner: &str)
    ensures
        (exists|start: int, end: int|
            inner@ == #[trigger] s@.subrange(start, end) && inner@.len() == end - start && 0
                <= start <= s@.len() - inner@.len() && (forall|k: int|
                0 <= k < s@.len() && !is_white_space(s@[k]) ==> start <= k < start + inner@.len())),
        inner@.len() > 0 ==> !is_white_space(inner@.first()) && !is_white_space(inner@.last()),
{
    s.trim()
}

/// Cutting off a run of white space that reaches up to the first other character (or
/// the end) is what [`trimmed_start`] does.
pub proof fn lemma_trimmed_start(s: Seq<char>, start: int)
    requires
        0 <= start <= s.len(),
        forall|k: int| 0 <= k < start ==> is_white_space(s[k]),
        start < s.len() ==> !is_white_space(s[start]),
    ensures
        trimmed_start(s) == s.subrange(start, s.len() as int),
    decreases start,
{
    if start == 0 {
        assert(s.subrange(0, s.len() as int) =~= s);
    } else {
        let rest = s.drop_first();
        assert forall|k: int| 0 <= k < start - 1 implies is_white_space(rest[k]) by {
            assert(rest[k] == s[k + 1]);
        }
        lemma_trimmed_start(rest, start - 1);
        assert(rest.subrange(start - 1, rest.len() as int) =~= s.subrange(start, s.len() as int));
    }
}

/// Cutting off a run of white space that reaches back to the last other character
/// (or the start) is what [`trimmed_end`] does.
pub proof fn lemma_trimmed_end(s: Seq<char>, end: int)
    requires
        0 <= end <= s.len(),
        forall|k: int| end <= k < s.len() ==> is_white_space(s[k]),
        0 < end ==> !is_white_space(s[end - 1]),
    ensures
        trimmed_end(s) == s.subrange(0, end),
    decreases s.len() - end,
{
    if end == s.len() {
        assert(s.subrange(0, end) =~= s);
    } else {
        let rest = s.drop_last();
        lemma_trimmed_end(rest, end);
        assert(rest.subrange(0, end) =~= s.subrange(0, end));
    }
}

/// `s` without its leading and trailing white space, borrowed from `s`.
pub fn trim(s: &str) -> (inner: &str)
    ensures
        inner@ == trimmed(s@),
{
    let inner = str_trim(s);
    proof {
        let (start, end) = choose|start: int, end: int|
            inner@ == #[trigger] s@.subrange(start, end) && inner@.len() == end - start && 0
                <= start <= s@.len() - inner@.len() && (forall|k: int|
                0 <= k < s@.len() && !is_white_space(s@[k]) ==> start <= k < start + inner@.len());
        let len = s@.len() as int;
        if start < end {
            assert(inner@.first() == s@[start] && inner@.last() == s@[end - 1]);
            lemma_trimmed_start(s@, start);
            let tail = s@.subrange(start, len);
            assert forall|k: int| end - start <= k < tail.len() implies is_white_space(
                tail[k],
            ) by {
                assert(tail[k] == s@[start + k]);
            }
            assert(tail[end - start - 1] == s@[end - 1]);
            lemma_trimmed_end(tail, end - start);
            assert(tail.subrange(0, end - start) =~= s@.subrange(start, end));
        } else {
            lemma_trimmed_start(s@, len);
            assert(s@.subrange(len, len) =~= s@.subrange(start, end));
        }
    }
    inner
}

/// What [`trimmed_start`] leaves does not start with white space.
pub proof fn lemma_trimmed_start_is_bare(s: Seq<char>)
    ensures
        trimmed_start(s).len() > 0 ==> !is_white_space(trimmed_start(s).first()),
    decreases s.len(),
{
    if s.len() > 0 && is_white_space(s.first()) {
        lemma_trimmed_start_is_bare(s.drop_first());
    }
}

/// What [`trimmed_end`] leaves is a start of the text, and does not end with white
/// space.
pub proof fn lemma_trimmed_end_is_bare(s: Seq<char>)
    ensures
        trimmed_end(s).len() <= s.len(),
        trimmed_end(s) == s.subrange(0, trimmed_end(s).len() as int),
        trimmed_end(s).len() > 0 ==> !is_white_space(trimmed_end(s).last()),
    decreases s.len(),
{
    if s.len() > 0 && is_white_space(s.last()) {
        let front = s.drop_last();
        lemma_trimmed_end_is_bare(front);
        let kept = trimmed_end(front).len() as int;
        assert(front.subrange(0, kept) =~= s.subrange(0, kept));
    } else {
        assert(s.subrange(0, s.len() as int) =~= s);
    }
}

/// Trimmed text neither starts nor ends with white space.
pub proof fn lemma_trimmed_is_bare(s: Seq<char>)
    ensures
        trimmed(s).len() > 0 ==> !is_white_space(trimmed(s).first()) && !is_white_space(
            trimmed(s).last(),
        ),
{
    lemma_trimmed_start_is_bare(s);
    lemma_trimmed_end_is_bare(trimmed_start(s));
}

/// Trimming is idempotent: there is nothing left to trim off trimmed text.
pub proof fn lemma_trimmed_is_idempotent(s: Seq<char>)
    ensures
        trimmed(trimmed(s)) == trimmed(s),
{
    lemma_trimmed_is_bare(s);
}

/// Holds for the ten characters `0` to `9`.
pub open spec fn is_decimal_digit(c: char) -> bool {
    '0' <= c <= '9'
}

/// The number that a sequence of decimal digits writes, most significant digit first.
pub open spec fn digits_value(digits: Seq<char>) -> nat
    decreases digits.len(),
{
    if digits.len() == 0 {
        0
    } else {
        digits_value(digits.drop_last()) * 10 + (digits.last() as int - '0' as int) as nat
    }
}

/// The `u32` that `s` writes in decimal, if it writes one: an optional `+`, then one or
/// more decimal digits and nothing else, with a value that fits in 32 bits.
pub open spec fn decimal_u32(s: Seq<char>) -> Option<u32> {
    let digits = if s.len() > 0 && s.first() == '+' {
        s.drop_first()
    } else {
        s
    };
    if digits.len() > 0 && (forall|i: int| 0 <= i < digits.len() ==> is_decimal_digit(digits[i]))
        && digits_value(digits) <= u32::MAX {
        Some(digits_value(digits) as u32)
    } else {
        None
    }
}

/// `s.parse::<u32>()`, without the reason for a failure.
///
/// Trusted: the standard library documents the parse as accepting an optional `+`
/// followed by decimal digits only, and as failing on an empty string, on any other
/// character (white space and `-` included) and on a value too large for the type. The
/// contract states this as [`decimal_u32`].
#[verifier::external_body]
pub(crate) fn parse_u32(s: &str) -> (parsed: Option<u32>)
    ensures
        parsed == decimal_u32(s@),
{
    match s.parse::<u32>() {
        Ok(value) => Some(value),
        Err(_) => None,
    }
}

} // verus!
