//! Choosing one of two borrowed strings.
//!
//! Both functions hand back one of their arguments, never a new string, so the result
//! lives no longer than the shorter-lived of the two inputs; the shared lifetime in
//! their signatures makes the compiler hold callers to that.

use crate::text::{lex_greater, str_gt};
use vstd::prelude::*;

verus! {

/// The longer of two strings by length in bytes; `x` when they are equally long.
pub fn longest<'a>(x: &'a str, y: &'a str) -> (chosen: &'a str)
    ensures
        chosen == (if y.len() > x.len() {
            y
        } else {
            x
        }),
        chosen.len() >= x.len(),
        chosen.len() >= y.len(),
{
    if y.len() > x.len() {
        y
    } else {
        x
    }
}

/// The order [`lex_greater`] never holds in both directions, and so never of a
/// string and itself.
pub proof fn lemma_lex_greater_asymmetric(a: Seq<char>, b: Seq<char>)
    ensures
        !(lex_greater(a, b) && lex_greater(b, a)),
    decreases a.len(),
{
    if a.len() > 0 && b.len() > 0 && a[0] == b[0] {
        lemma_lex_greater_asymmetric(a.drop_first(), b.drop_first());
    }
}

/// Two different strings are ordered by [`lex_greater`] one way or the other.
pub proof fn lemma_lex_greater_total(a: Seq<char>, b: Seq<char>)
    requires
        a != b,
    ensures
        lex_greater(a, b) || lex_greater(b, a),
    decreases a.len(),
{
    if a.len() > 0 && b.len() > 0 && a[0] == b[0] {
        if a.drop_first() == b.drop_first() {
            assert(a =~= seq![a[0]] + a.drop_first());
            assert(b =~= seq![b[0]] + b.drop_first());
        }
        lemma_lex_greater_total(a.drop_first(), b.drop_first());
    } else if a.len() == 0 && b.len() == 0 {
        assert(a =~= b);
    }
}

/// The later of two words in lexicographic order of code points; `wort1` when they
/// are equal. Neither word comes after the chosen one.
pub fn welches_wort_ist_groesser<'a>(wort1: &'a str, wort2: &'a str) -> (chosen: &'a str)
    ensures
        chosen == (if lex_greater(wort2@, wort1@) {
            wort2
        } else {
            wort1
        }),
        !lex_greater(wort1@, chosen@),
        !lex_greater(wort2@, chosen@),
{
    proof {
        lemma_lex_greater_asymmetric(wort1@, wort2@);
        lemma_lex_greater_asymmetric(wort1@, wort1@);
        lemma_lex_greater_asymmetric(wort2@, wort2@);
    }
    if str_gt(wort2, wort1) {
        wort2
    } else {
        wort1
    }
}

} // verus!
