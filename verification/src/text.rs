//! Searching and cutting text by character position.

use vstd::prelude::*;

verus! {

/// Index of the first `needle` in `text` at or after `from`, or the length
/// of `text` where there is none.
pub open spec fn first_index(text: Seq<char>, needle: char, from: int) -> int
    decreases text.len() - from,
{
    if from < 0 || from >= text.len() {
        text.len() as int
    } else if text[from] == needle {
        from
    } else {
        first_index(text, needle, from + 1)
    }
}

/// [`first_index`] is the least position of `needle` from `from` on.
pub proof fn lemma_first_index(text: Seq<char>, needle: char, from: int)
    requires
        0 <= from <= text.len(),
    ensures
        from <= first_index(text, needle, from) <= text.len(),
        forall|k: int| from <= k < first_index(text, needle, from) ==> text[k] != needle,
        first_index(text, needle, from) < text.len() ==> text[first_index(text, needle, from)]
            == needle,
    decreases text.len() - from,
{
    if from < text.len() && text[from] != needle {
        lemma_first_index(text, needle, from + 1);
    }
}

/// The characters of `text`, one element each.
pub fn to_chars(text: &str) -> (chars: Vec<char>)
    ensures
        chars@ == text@,
{
    let mut chars: Vec<char> = Vec::new();
    for c in it: text.chars()
        invariant
            chars@ == it.seq().take(it.index()),
            it.seq() == text@,
    {
        chars.push(c);
    }
    chars
}

/// Position of the first `needle` in `text` at or after `from`, or the
/// length of `text` where there is none.
pub fn find_char(text: &Vec<char>, needle: char, from: usize) -> (at: usize)
    ensures
        at == first_index(text@, needle, from as int),
{
    if from >= text.len() {
        return text.len();
    }
    let mut at: usize = from;
    while at < text.len() && text[at] != needle
        invariant
            from <= at <= text.len(),
            first_index(text@, needle, from as int) == first_index(text@, needle, at as int),
        decreases text.len() - at,
    {
        at = at + 1;
    }
    at
}

/// The characters of `text` from position `from` up to, not including, `to`.
pub fn slice_chars(text: &str, from: usize, to: usize) -> (part: String)
    requires
        from <= to <= text@.len(),
    ensures
        part@ == text@.subrange(from as int, to as int),
{
    text.substring_char(from, to).to_owned()
}

/// Whether two texts are the same, character by character.
pub fn same_text(left: &str, right: &str) -> (same: bool)
    ensures
        same == (left@ == right@),
{
    left.to_owned() == right.to_owned()
}

/// A copy of an optional text.
pub fn copy_optional(text: &Option<String>) -> (copy: Option<String>)
    ensures
        copy.deep_view() == text.deep_view(),
{
    match text {
        Some(t) => Some(t.clone()),
        None => None,
    }
}

} // verus!
