//! Words.
use vstd::prelude::*;

verus! {

/// Tells whether a name is a given word.
pub(crate) fn is_word(name: &String, word: &str) -> (r: bool)
    ensures
        r == (name@ == word@),
{
    let owned = word.to_owned();
    *name == owned
}

} // verus!
