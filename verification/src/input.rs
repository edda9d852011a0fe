//! Turning a line of input into a guess.

use crate::error::GameError;
use vstd::prelude::*;

verus! {

/// The guess that a line of input stands for: its first character, whatever
/// it is. Only a line without any character gives no guess.
pub open spec fn line_guess(line: Seq<char>) -> Result<char, GameError> {
    if line.len() == 0 {
        Err(GameError::Input)
    } else {
        Ok(line[0])
    }
}

/// Takes the guess from a line as it was read, line end included. The first
/// character is the guess and is not checked to be a letter; the rest of the
/// line is ignored.
pub fn guess_from_line(line: &str) -> (guess: Result<char, GameError>)
    ensures
        guess == line_guess(line@),
{
    broadcast use vstd::string::group_string_axioms;

    let mut chars = line.chars();
    match chars.next() {
        Some(c) => Ok(c),
        None => Err(GameError::Input),
    }
}

} // verus!
