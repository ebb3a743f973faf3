//! Characters and text: the few operations on strings that the library needs.

use vstd::prelude::*;

verus! {

/// Whether `text` ends with `suffix`.
pub open spec fn ends_with(text: Seq<char>, suffix: Seq<char>) -> bool {
    suffix.len() <= text.len() && text.subrange(text.len() - suffix.len(), text.len() as int)
        == suffix
}

/// Every text ends with what was appended to it last.
pub proof fn lemma_ends_with_appended(stem: Seq<char>, suffix: Seq<char>)
    ensures
        ends_with(stem + suffix, suffix),
{
    let text = stem + suffix;
    assert(text.subrange(text.len() - suffix.len(), text.len() as int) =~= suffix);
}

/// The characters of `s`, one by one.
pub(crate) fn chars_of(s: &str) -> (r: Vec<char>)
    ensures
        r@ == s@,
{
    let mut r: Vec<char> = Vec::new();
    for c in it: s.chars()
        invariant
            r@ == it.seq().take(it.index() as int),
    {
        r.push(c);
    }
    r
}

/// Whether `text` ends with the characters of `suffix`.
pub(crate) fn has_suffix(text: &Vec<char>, suffix: &str) -> (r: bool)
    ensures
        r == ends_with(text@, suffix@),
{
    let pattern = chars_of(suffix);
    let end: usize = text.len();
    if pattern.len() > end {
        return false;
    }
    let offset: usize = end - pattern.len();
    let mut i: usize = 0;
    while i < pattern.len()
        invariant
            pattern@ == suffix@,
            end == text@.len(),
            offset + pattern@.len() == end,
            i <= pattern@.len(),
            forall|k: int| 0 <= k < i ==> text@[offset + k] == pattern@[k],
        decreases pattern.len() - i,
    {
        if text[offset + i] != pattern[i] {
            assert(text@.subrange(offset as int, end as int)[i as int] != pattern@[i as int]);
            return false;
        }
        i = i + 1;
    }
    assert(text@.subrange(offset as int, end as int) =~= pattern@);
    true
}

/// The texts one after the other.
pub(crate) fn concat2(a: &str, b: &str) -> (r: String)
    ensures
        r@ == a@ + b@,
{
    let mut r = String::from_str(a);
    r.append(b);
    r
}

/// The texts one after the other.
pub(crate) fn concat3(a: &str, b: &str, c: &str) -> (r: String)
    ensures
        r@ == a@ + b@ + c@,
{
    let mut r = concat2(a, b);
    r.append(c);
    r
}

/// The texts one after the other.
pub(crate) fn concat4(a: &str, b: &str, c: &str, d: &str) -> (r: String)
    ensures
        r@ == a@ + b@ + c@ + d@,
{
    let mut r = concat3(a, b, c);
    r.append(d);
    r
}

} // verus!
