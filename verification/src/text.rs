//! Text helpers that are shared by several modules.

use vstd::prelude::*;

verus! {

/// The views of several strings.
pub open spec fn texts(strings: Seq<String>) -> Seq<Seq<char>> {
    Seq::new(strings.len(), |i: int| strings[i]@)
}

/// What `str::to_lowercase` makes of a text.
pub uninterp spec fn lowercased(text: Seq<char>) -> Seq<char>;

/// `str::to_lowercase`: the text in lower case, by the Unicode rules.  The
/// outcome is named, not described.
#[verifier::external_body]
pub(crate) fn to_lowercase(text: &str) -> (lower: String)
    ensures
        lower@ == lowercased(text@),
{
    text.to_lowercase()
}

/// `part` stands somewhere in `text`.
pub open spec fn contains_text(text: Seq<char>, part: Seq<char>) -> bool {
    exists|i: int| #[trigger] text_at(text, i, part)
}

/// `part` stands in `text` at position `i`.
pub open spec fn text_at(text: Seq<char>, i: int, part: Seq<char>) -> bool {
    0 <= i && i + part.len() <= text.len() && text.subrange(i, i + part.len()) == part
}

/// The characters of `text`.
pub(crate) fn characters(text: &str) -> (chars: Vec<char>)
    ensures
        chars@ == text@,
{
    let mut chars: Vec<char> = Vec::new();
    let count: usize = text.unicode_len();
    let mut i: usize = 0;
    while i < count
        invariant
            i <= count == text@.len(),
            chars@ == text@.take(i as int),
        decreases count - i,
    {
        chars.push(text.get_char(i));
        i = i + 1;
        assert(chars@ =~= text@.take(i as int));
    }
    assert(text@.take(i as int) =~= text@);
    chars
}

/// Whether `part` stands in `text` at position `at`.
fn has_text_at(text: &Vec<char>, at: usize, part: &Vec<char>) -> (found: bool)
    ensures
        found == text_at(text@, at as int, part@),
{
    let total: usize = text.len();
    if at > total || total - at < part.len() {
        return false;
    }
    let ghost window = text@.subrange(at as int, at + part@.len());
    let mut i: usize = 0;
    while i < part.len()
        invariant
            i <= part@.len(),
            at + part@.len() <= text@.len() == total,
            window == text@.subrange(at as int, at + part@.len()),
            forall|k: int| 0 <= k < i ==> #[trigger] window[k] == part@[k],
        decreases part@.len() - i,
    {
        if text[at + i] != part[i] {
            assert(window[i as int] != part@[i as int]);
            return false;
        }
        assert(window[i as int] == part@[i as int]);
        i = i + 1;
    }
    assert(window =~= part@);
    true
}

/// Whether `part` stands somewhere in `text`.
pub(crate) fn has_text(text: &Vec<char>, part: &str) -> (found: bool)
    ensures
        found == contains_text(text@, part@),
{
    let wanted = characters(part);
    let mut i: usize = 0;
    let total: usize = text.len();
    loop
        invariant
            i <= total == text@.len(),
            wanted@ == part@,
            forall|k: int| 0 <= k < i ==> !#[trigger] text_at(text@, k, part@),
        decreases total - i,
    {
        if has_text_at(text, i, &wanted) {
            assert(text_at(text@, i as int, part@));
            return true;
        }
        if i == total {
            assert forall|k: int| !#[trigger] text_at(text@, k, part@) by {
                if k > total {
                }
            }
            return false;
        }
        i = i + 1;
    }
}

/// Whether two texts are the same.
pub(crate) fn same_text(a: &str, b: &str) -> (same: bool)
    ensures
        same == (a@ == b@),
{
    a.to_owned() == b.to_owned()
}

/// A text contains every piece of itself, and what it contains is such a piece.
pub proof fn law_texts_contain_their_pieces(before: Seq<char>, part: Seq<char>, after: Seq<char>)
    ensures
        contains_text(before + part + after, part),
{
    let text = before + part + after;
    assert(text.subrange(before.len() as int, (before.len() + part.len()) as int) =~= part);
    assert(text_at(text, before.len() as int, part));
}

/// Where a text contains another, it is that one with something before and after it.
pub proof fn law_contained_texts_are_pieces(text: Seq<char>, part: Seq<char>) -> (around: (
    Seq<char>,
    Seq<char>,
))
    requires
        contains_text(text, part),
    ensures
        text == around.0 + part + around.1,
{
    let i = choose|i: int| #[trigger] text_at(text, i, part);
    let around = (text.take(i), text.skip(i + part.len()));
    assert(text =~= around.0 + text.subrange(i, i + part.len()) + around.1);
    around
}

/// The views are those of the strings, one for one.
pub proof fn law_texts_are_the_strings(strings: Seq<String>, i: int)
    requires
        0 <= i < strings.len(),
    ensures
        texts(strings).len() == strings.len(),
        texts(strings)[i] == strings[i]@,
{
}

} // verus!
