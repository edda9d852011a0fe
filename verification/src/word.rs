//! The secret word as the player sees it.

use crate::guesses::Guesses;
use vstd::prelude::*;

verus! {

/// The character shown in place of a letter that has not been guessed.
pub const PLACEHOLDER: char = '_';

/// The secret word with every character outside `guessed` replaced by the
/// placeholder.
pub open spec fn revealed(word: Seq<char>, guessed: Set<char>) -> Seq<char> {
    Seq::new(
        word.len(),
        |i: int|
            if guessed.contains(word[i]) {
                word[i]
            } else {
                PLACEHOLDER
            },
    )
}

/// Whether `c` occurs anywhere in `word`.
pub fn contains_char(word: &str, c: char) -> (found: bool)
    ensures
        found == word@.contains(c),
{
    broadcast use vstd::string::group_string_axioms;

    let mut found = false;
    for ch in it: word.chars()
        invariant
            it.seq() == word@,
            found == exists|j: int| 0 <= j < it.index() && word@[j] == c,
    {
        if ch == c {
            found = true;
        }
    }
    found
}

/// Renders `word` for the player: a guessed character is shown as it is,
/// every other position shows the placeholder.
pub fn get_revealed_word(word: &str, guesses: &Guesses) -> (shown: String)
    ensures
        shown@ == revealed(word@, guesses@.to_set()),
        shown@.len() == word@.len(),
        forall|i: int|
            0 <= i < word@.len() ==> shown@[i] == (if guesses@.contains(#[trigger] word@[i]) {
                word@[i]
            } else {
                PLACEHOLDER
            }),
{
    broadcast use vstd::string::group_string_axioms;

    let mut shown = String::new();
    for ch in it: word.chars()
        invariant
            it.seq() == word@,
            shown@ == revealed(word@.take(it.index() as int), guesses@.to_set()),
    {
        if guesses.contains(ch) {
            shown.push(ch);
        } else {
            shown.push(PLACEHOLDER);
        }
    }
    shown
}

} // verus!
