//! Small tools on strings that several modules share.

use vstd::prelude::*;
use vstd::string::*;

verus! {

/// The texts of a list of strings.
pub open spec fn texts(strings: Seq<String>) -> Seq<Seq<char>> {
    Seq::new(strings.len(), |i: int| strings[i]@)
}

/// The position of the first `needle` in `text`, counted in characters.
pub fn find_first(text: &str, needle: char) -> (found: Option<usize>)
    ensures
        match found {
            Some(index) => text@.index_of_first(needle) == Some(index as int),
            None => text@.index_of_first(needle) is None,
        },
{
    let length = text.unicode_len();
    let mut index: usize = 0;
    while index < length
        invariant
            length == text@.len(),
            index <= length,
            forall|j: int| 0 <= j < index ==> text@[j] != needle,
        decreases length - index,
    {
        if text.get_char(index) == needle {
            proof {
                text@.index_of_first_ensures(needle);
                assert(text@.contains(needle));
            }
            return Some(index);
        }
        index = index + 1;
    }
    proof {
        text@.index_of_first_ensures(needle);
    }
    None
}

/// Whether one of `list` reads `wanted`.
pub fn contains_text(list: &Vec<String>, wanted: &str) -> (found: bool)
    ensures
        found == texts(list@).contains(wanted@),
{
    let mut index: usize = 0;
    while index < list.len()
        invariant
            index <= list@.len(),
            forall|j: int| 0 <= j < index ==> texts(list@)[j] != wanted@,
        decreases list@.len() - index,
    {
        if str_equal(list[index].as_str(), wanted) {
            assert(texts(list@)[index as int] == wanted@);
            return true;
        }
        index = index + 1;
    }
    false
}

/// Whether two strings read the same.
pub fn str_equal(left: &str, right: &str) -> (same: bool)
    ensures
        same == (left@ == right@),
{
    let length = left.unicode_len();
    if length != right.unicode_len() {
        return false;
    }
    let mut index: usize = 0;
    while index < length
        invariant
            length == left@.len(),
            length == right@.len(),
            index <= length,
            forall|j: int| 0 <= j < index ==> left@[j] == right@[j],
        decreases length - index,
    {
        if left.get_char(index) != right.get_char(index) {
            return false;
        }
        index = index + 1;
    }
    assert(left@ =~= right@);
    true
}

/// The first `limit` characters of `text`, or all of it where it has fewer.
pub open spec fn truncated(text: Seq<char>, limit: int) -> Seq<char> {
    if limit < text.len() {
        text.subrange(0, limit)
    } else {
        text
    }
}

/// Cuts `text` to its first `limit` characters.
pub fn truncate(text: &str, limit: usize) -> (cut: String)
    ensures
        cut@ == truncated(text@, limit as int),
{
    if limit < text.unicode_len() {
        text.substring_char(0, limit).to_owned()
    } else {
        text.to_owned()
    }
}

} // verus!
