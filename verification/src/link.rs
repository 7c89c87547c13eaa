//! The link line decoder: splitting the text after a `=>` directive into a
//! target reference and a display label.

use vstd::prelude::*;
use vstd::string::StrSliceExecFns;
use vstd::string::StringExecFns;

verus! {

/// Whitespace as the decoder sees it: the Unicode white-space characters.
pub open spec fn spec_is_space(c: char) -> bool {
    c == ' ' || c == '\t' || c == '\n' || c == '\u{b}' || c == '\u{c}' || c == '\r'
        || c == '\u{85}' || c == '\u{a0}' || c == '\u{1680}'
        || ('\u{2000}' <= c && c <= '\u{200a}')
        || c == '\u{2028}' || c == '\u{2029}' || c == '\u{202f}' || c == '\u{205f}'
        || c == '\u{3000}'
}

/// Whether a character is whitespace, as `spec_is_space` states it.
pub fn is_space(c: char) -> (r: bool)
    ensures
        r == spec_is_space(c),
{
    c == ' ' || c == '\t' || c == '\n' || c == '\u{b}' || c == '\u{c}' || c == '\r'
        || c == '\u{85}' || c == '\u{a0}' || c == '\u{1680}'
        || ('\u{2000}' <= c && c <= '\u{200a}')
        || c == '\u{2028}' || c == '\u{2029}' || c == '\u{202f}' || c == '\u{205f}'
        || c == '\u{3000}'
}

/// The first position at or after `i` holding a non-whitespace character, or
/// the end of the text.
pub open spec fn spec_skip_space_from(s: Seq<char>, i: int) -> int
    decreases s.len() - i,
{
    if i < 0 || i >= s.len() {
        s.len() as int
    } else if !spec_is_space(s[i]) {
        i
    } else {
        spec_skip_space_from(s, i + 1)
    }
}

/// The first position at or after `i` holding a whitespace character, or the
/// end of the text.
pub open spec fn spec_find_space_from(s: Seq<char>, i: int) -> int
    decreases s.len() - i,
{
    if i < 0 || i >= s.len() {
        s.len() as int
    } else if spec_is_space(s[i]) {
        i
    } else {
        spec_find_space_from(s, i + 1)
    }
}

/// How a link directive's text splits into target and label: leading
/// whitespace is skipped, the target runs to the next whitespace character
/// (or the end), and the label is everything from the first non-whitespace
/// character after the target to the end.  A single-token directive is all
/// target, with an empty label.
pub open spec fn spec_link_split(s: Seq<char>) -> (Seq<char>, Seq<char>) {
    let t0 = spec_skip_space_from(s, 0);
    let t1 = spec_find_space_from(s, t0);
    let l0 = spec_skip_space_from(s, t1);
    (s.subrange(t0, t1), s.subrange(l0, s.len() as int))
}

proof fn lemma_skip_space_from(s: Seq<char>, i: int, e: int)
    requires
        0 <= i <= e <= s.len(),
        forall|j: int| i <= j < e ==> spec_is_space(#[trigger] s[j]),
        e < s.len() ==> !spec_is_space(s[e]),
    ensures
        spec_skip_space_from(s, i) == e,
    decreases e - i,
{
    if i < e {
        lemma_skip_space_from(s, i + 1, e);
    }
}

proof fn lemma_find_space_from(s: Seq<char>, i: int, e: int)
    requires
        0 <= i <= e <= s.len(),
        forall|j: int| i <= j < e ==> !spec_is_space(#[trigger] s[j]),
        e < s.len() ==> spec_is_space(s[e]),
    ensures
        spec_find_space_from(s, i) == e,
    decreases e - i,
{
    if i < e {
        lemma_find_space_from(s, i + 1, e);
    }
}

/// Scan forward from `i` to the first non-whitespace character.
fn skip_space_from(s: &str, i: usize) -> (e: usize)
    requires
        i <= s@.len(),
    ensures
        i <= e <= s@.len(),
        e as int == spec_skip_space_from(s@, i as int),
{
    let n = s.unicode_len();
    let mut k = i;
    while k < n
        invariant
            i <= k <= n,
            n == s@.len(),
            forall|j: int| i <= j < k ==> spec_is_space(#[trigger] s@[j]),
        decreases n - k,
    {
        if !is_space(s.get_char(k)) {
            proof {
                lemma_skip_space_from(s@, i as int, k as int);
            }
            return k;
        }
        k += 1;
    }
    proof {
        lemma_skip_space_from(s@, i as int, n as int);
    }
    n
}

/// Scan forward from `i` to the first whitespace character.
fn find_space_from(s: &str, i: usize) -> (e: usize)
    requires
        i <= s@.len(),
    ensures
        i <= e <= s@.len(),
        e as int == spec_find_space_from(s@, i as int),
{
    let n = s.unicode_len();
    let mut k = i;
    while k < n
        invariant
            i <= k <= n,
            n == s@.len(),
            forall|j: int| i <= j < k ==> !spec_is_space(#[trigger] s@[j]),
        decreases n - k,
    {
        if is_space(s.get_char(k)) {
            proof {
                lemma_find_space_from(s@, i as int, k as int);
            }
            return k;
        }
        k += 1;
    }
    proof {
        lemma_find_space_from(s@, i as int, n as int);
    }
    n
}

/// Split a link directive's text (the characters after `=>`, without the
/// line's terminator) into its target reference and its display label, as
/// `spec_link_split` states it.
pub fn decode_link_line(link_line: &str) -> (r: (String, String))
    ensures
        r.0@ == spec_link_split(link_line@).0,
        r.1@ == spec_link_split(link_line@).1,
{
    let n = link_line.unicode_len();
    let t0 = skip_space_from(link_line, 0);
    let t1 = find_space_from(link_line, t0);
    let l0 = skip_space_from(link_line, t1);
    let target = String::from_str(link_line.substring_char(t0, t1));
    let label = String::from_str(link_line.substring_char(l0, n));
    (target, label)
}

} // verus!
