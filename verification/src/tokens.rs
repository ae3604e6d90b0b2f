//! Case-insensitive matching of state tokens.
//!
//! Requests may spell a level token in any case; the pipeline normalizes
//! tokens to lowercase before checking them against policy. The helpers
//! here compare a raw token, folded character by character, against a
//! lowercase reference word.

use vstd::prelude::*;

verus! {

/// An ASCII uppercase letter.
pub open spec fn is_ascii_upper(c: char) -> bool {
    'A' <= c && c <= 'Z'
}

/// The lowercase fold of `c` equals `d`: either `c` is an ASCII uppercase
/// letter whose lowercase counterpart is `d`, or `c` is already `d`.
pub open spec fn lower_matches(c: char, d: char) -> bool {
    if is_ascii_upper(c) {
        c as u32 + 32 == d as u32
    } else {
        c == d
    }
}

/// The lowercase fold of `a` equals `b` character by character.
pub open spec fn lowered_eq_seq(a: Seq<char>, b: Seq<char>) -> bool {
    a.len() == b.len() && forall|i: int| 0 <= i < a.len() ==> lower_matches(a[i], #[trigger] b[i])
}

/// Compare the lowercase fold of `a` against `b`.
pub fn eq_lowered(a: &str, b: &str) -> (r: bool)
    ensures
        r == lowered_eq_seq(a@, b@),
{
    let alen = a.unicode_len();
    let blen = b.unicode_len();
    if alen != blen {
        return false;
    }
    let mut i: usize = 0;
    while i < alen
        invariant
            0 <= i <= alen,
            alen == a@.len(),
            alen == b@.len(),
            forall|j: int| 0 <= j < i ==> lower_matches(a@[j], #[trigger] b@[j]),
        decreases alen - i,
    {
        let ca = a.get_char(i);
        let cb = b.get_char(i);
        let matched: bool = if 'A' <= ca && ca <= 'Z' {
            (ca as u32) + 32 == (cb as u32)
        } else {
            ca == cb
        };
        if !matched {
            return false;
        }
        i = i + 1;
    }
    true
}

/// The two level tokens are their own lowercase folds: a string equal
/// to `"high"` or `"low"` also matches it case-insensitively.
pub proof fn lemma_level_literals_lowered()
    ensures
        lowered_eq_seq("high"@, "high"@),
        lowered_eq_seq("low"@, "low"@),
{
    reveal_strlit("high");
    reveal_strlit("low");
}

/// Compare two strings for exact equality, character by character.
pub fn str_eq(a: &str, b: &str) -> (r: bool)
    ensures
        r == (a@ == b@),
{
    let alen = a.unicode_len();
    let blen = b.unicode_len();
    if alen != blen {
        return false;
    }
    let mut i: usize = 0;
    while i < alen
        invariant
            0 <= i <= alen,
            alen == a@.len(),
            alen == b@.len(),
            forall|j: int| 0 <= j < i ==> a@[j] == #[trigger] b@[j],
        decreases alen - i,
    {
        let ca = a.get_char(i);
        let cb = b.get_char(i);
        if ca != cb {
            return false;
        }
        i = i + 1;
    }
    proof {
        assert(a@ =~= b@);
    }
    true
}

} // verus!
