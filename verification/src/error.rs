//! What can go wrong around a game.

use vstd::prelude::*;

verus! {

/// The ways in which a session fails. None of them is retried.
#[derive(Clone, Copy, Debug, PartialEq, Eq, Structural)]
pub enum GameError {
    /// The request for a word did not go through.
    Network,
    /// The answer of the word service does not hold a word.
    Parse,
    /// No guess could be read.
    Input,
}

impl GameError {
    /// The text of the error.
    pub open spec fn text(self) -> Seq<char> {
        match self {
            GameError::Network => "the request for a word failed"@,
            GameError::Parse => "the word service sent no word"@,
            GameError::Input => "no guess could be read"@,
        }
    }

    /// A line that tells the player what went wrong.
    pub fn message(&self) -> (message: String)
        ensures
            message@ == self.text(),
    {
        match self {
            GameError::Network => "the request for a word failed".to_owned(),
            GameError::Parse => "the word service sent no word".to_owned(),
            GameError::Input => "no guess could be read".to_owned(),
        }
    }
}

} // verus!
