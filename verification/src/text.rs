//! Small helpers on strings.

use vstd::prelude::*;

verus! {

/// Whether `text` is the word `word`.
pub(crate) fn is_word(text: &String, word: &str) -> (r: bool)
    ensures
        r == (text@ == word@),
{
    let wanted = word.to_owned();
    *text == wanted
}

/// The texts of a run of strings.
pub open spec fn texts(names: Seq<String>) -> Seq<Seq<char>> {
    Seq::new(names.len(), |i: int| names[i]@)
}

} // verus!
