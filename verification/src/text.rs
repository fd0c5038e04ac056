//! Small verified operations on text.

use vstd::prelude::*;
use vstd::string::StrSliceExecFns;

verus! {

/// Whether `needle` occurs in `hay` as a run of consecutive characters.
pub open spec fn text_contains(hay: Seq<char>, needle: Seq<char>) -> bool {
    exists|i: int| 0 <= i <= hay.len() - needle.len() && #[trigger] hay.subrange(i, i + needle.len()) == needle
}

/// Whether `needle` occurs at position `i` of `hay`, checked character by
/// character.
fn occurs_at(hay: &str, needle: &str, i: usize) -> (r: bool)
    requires
        i + needle@.len() <= hay@.len(),
    ensures
        r == (hay@.subrange(i as int, i + needle@.len()) == needle@),
{
    let n = hay.unicode_len();
    let m = needle.unicode_len();
    let mut j: usize = 0;
    while j < m
        invariant
            n == hay@.len(),
            m == needle@.len(),
            i + m <= hay@.len(),
            0 <= j <= m,
            forall|t: int| 0 <= t < j ==> hay@[i + t] == needle@[t],
        decreases m - j,
    {
        if hay.get_char(i + j) != needle.get_char(j) {
            proof {
                assert(hay@.subrange(i as int, i + m)[j as int] != needle@[j as int]);
            }
            return false;
        }
        j = j + 1;
    }
    assert(hay@.subrange(i as int, i + m) =~= needle@);
    true
}

/// Whether `needle` occurs in `hay` (as `str::contains` with a text
/// pattern).
pub fn contains_text(hay: &str, needle: &str) -> (r: bool)
    ensures
        r == text_contains(hay@, needle@),
{
    let n = hay.unicode_len();
    let m = needle.unicode_len();
    if m > n {
        return false;
    }
    if m == 0 {
        assert(hay@.subrange(0, 0 + needle@.len() as int) =~= needle@);
        return true;
    }
    let mut i: usize = 0;
    while i <= n - m
        invariant
            n == hay@.len(),
            m == needle@.len(),
            0 < m <= n,
            0 <= i <= n - m + 1,
            forall|k: int| 0 <= k < i ==> #[trigger] hay@.subrange(k, k + m) != needle@,
        decreases n - m + 1 - i,
    {
        if occurs_at(hay, needle, i) {
            return true;
        }
        i = i + 1;
    }
    false
}

/// `text` with every trailing `c` removed, as `str::trim_end_matches` does
/// with a character pattern.
pub open spec fn trim_end_char(text: Seq<char>, c: char) -> Seq<char>
    decreases text.len(),
{
    if text.len() > 0 && text.last() == c {
        trim_end_char(text.drop_last(), c)
    } else {
        text
    }
}

proof fn lemma_trim_end_prefix(text: Seq<char>, c: char, k: int)
    requires
        0 <= k <= text.len(),
        forall|t: int| k <= t < text.len() ==> text[t] == c,
        k == 0 || text[k - 1] != c,
    ensures
        trim_end_char(text, c) == text.subrange(0, k),
    decreases text.len(),
{
    if text.len() > k {
        assert(text.drop_last().subrange(0, k) =~= text.subrange(0, k));
        lemma_trim_end_prefix(text.drop_last(), c, k);
    } else {
        assert(text.subrange(0, k) =~= text);
    }
}

/// `text` with every trailing `c` removed.
pub fn trim_end_matching<'a>(text: &'a str, c: char) -> (r: &'a str)
    ensures
        r@ == trim_end_char(text@, c),
{
    let n = text.unicode_len();
    let mut k = n;
    while k > 0 && text.get_char(k - 1) == c
        invariant
            n == text@.len(),
            0 <= k <= n,
            forall|t: int| k <= t < n ==> text@[t] == c,
        decreases k,
    {
        k = k - 1;
    }
    proof {
        lemma_trim_end_prefix(text@, c, k as int);
    }
    text.substring_char(0, k)
}

} // verus!
