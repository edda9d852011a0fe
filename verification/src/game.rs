//! One game of hangman: the state a session owns, the step that a guess
//! takes it through, and what the player is shown at each turn.

use crate::error::GameError;
use crate::guesses::{with_guess, Guesses};
use crate::input::{guess_from_line, line_guess};
use crate::render::{
    frame_text, loss_message, loss_text, prompt_message, prompt_text, render_frame, win_message,
    win_text,
};
use crate::word::{contains_char, get_revealed_word, revealed};
use vstd::prelude::*;

verus! {

/// Where a game stands.
#[derive(Clone, Copy, Debug, PartialEq, Eq, Structural)]
pub enum Status {
    /// The word is not fully revealed and wrong guesses are left.
    Playing,
    /// Every character of the word is revealed.
    Won,
    /// The last drawing has been reached.
    Lost,
}

/// The mathematical state of a game.
pub struct GameState {
    /// The secret word. It never changes.
    pub word: Seq<char>,
    /// The distinct characters guessed so far, in the order of first entry.
    pub guessed: Seq<char>,
    /// The number of wrong guesses so far, which is the index of the drawing
    /// on display.
    pub stage: nat,
    /// The table of drawings. It never changes.
    pub table: Seq<Seq<char>>,
}

impl GameState {
    /// The state in which every game begins: nothing guessed, first drawing.
    pub open spec fn start(word: Seq<char>, table: Seq<Seq<char>>) -> GameState {
        GameState { word, guessed: Seq::empty(), stage: 0, table }
    }

    /// The number of drawings in the table.
    pub open spec fn stages(self) -> nat {
        self.table.len()
    }

    /// The stage index lies within the table and no guess is recorded twice.
    pub open spec fn wf(self) -> bool {
        &&& self.stage < self.stages()
        &&& self.guessed.no_duplicates()
    }

    /// The word as the player sees it.
    pub open spec fn shown(self) -> Seq<char> {
        revealed(self.word, self.guessed.to_set())
    }

    /// A game is won as soon as the revealed word equals the secret word;
    /// otherwise it is lost once the stage index is the last of the table.
    pub open spec fn status(self) -> Status {
        if self.shown() == self.word {
            Status::Won
        } else if self.stage + 1 >= self.stages() {
            Status::Lost
        } else {
            Status::Playing
        }
    }

    /// The state after the guess `c`. While the game is being played the
    /// guess is recorded, and the stage index goes up by one exactly when `c`
    /// occurs nowhere in the word. A finished game stays as it is.
    pub open spec fn step(self, c: char) -> GameState {
        if self.status() is Playing {
            GameState {
                word: self.word,
                guessed: with_guess(self.guessed, c),
                stage: if self.word.contains(c) {
                    self.stage
                } else {
                    self.stage + 1
                },
                table: self.table,
            }
        } else {
            self
        }
    }

    /// The state after the guesses `cs`, taken from first to last.
    pub open spec fn run(self, cs: Seq<char>) -> GameState
        decreases cs.len(),
    {
        if cs.len() == 0 {
            self
        } else {
            self.run(cs.drop_last()).step(cs.last())
        }
    }

    /// The frame of the current turn: guesses, drawing and revealed word.
    pub open spec fn frame(self) -> Seq<char> {
        frame_text(self.guessed, self.table[self.stage as int], self.shown())
    }

    /// Everything the player is shown when a turn begins. A lost game shows
    /// its closing message alone; otherwise the frame comes first, followed
    /// by the closing message of a won game or by the request for a guess.
    pub open spec fn turn_text(self) -> Seq<char> {
        match self.status() {
            Status::Playing => self.frame() + "\n"@ + prompt_text(),
            Status::Won => self.frame() + "\n"@ + win_text(),
            Status::Lost => loss_text(self.word),
        }
    }
}

/// What the program does at the start of a turn.
pub struct Turn {
    /// The text to print.
    pub text: String,
    /// Whether the game is over, so that no further guess is to be read.
    pub over: bool,
}

/// A game in progress. It owns the secret word, the guesses, the stage index
/// and the table of drawings.
pub struct Game {
    word: String,
    guesses: Guesses,
    stage_index: usize,
    stages: Vec<String>,
}

impl View for Game {
    type V = GameState;

    closed spec fn view(&self) -> GameState {
        GameState {
            word: self.word@,
            guessed: self.guesses@,
            stage: self.stage_index as nat,
            table: self.stages@.map_values(|art: String| art@),
        }
    }
}

impl Game {
    #[verifier::type_invariant]
    spec fn well_formed(self) -> bool {
        &&& self.stage_index < self.stages.len()
        &&& self.guesses@.no_duplicates()
    }

    /// Starts a game on `word` with the drawings `stages`, of which there
    /// must be at least one.
    pub fn new(word: String, stages: Vec<String>) -> (game: Game)
        requires
            stages@.len() >= 1,
        ensures
            game@ == GameState::start(word@, stages@.map_values(|art: String| art@)),
            game@.wf(),
    {
        Game { word, guesses: Guesses::new(), stage_index: 0, stages }
    }

    /// The secret word.
    pub fn word(&self) -> (word: &String)
        ensures
            word@ == self@.word,
    {
        &self.word
    }

    /// The guesses made so far.
    pub fn guesses(&self) -> (guesses: &Guesses)
        ensures
            guesses@ == self@.guessed,
    {
        &self.guesses
    }

    /// The number of wrong guesses so far: the index of the drawing to show.
    pub fn stage_index(&self) -> (index: usize)
        ensures
            index == self@.stage,
            index < self@.stages(),
    {
        proof {
            use_type_invariant(self);
        }
        self.stage_index
    }

    /// The number of drawings in the table the game was started with.
    pub fn stage_count(&self) -> (count: usize)
        ensures
            count == self@.stages(),
            count >= 1,
    {
        proof {
            use_type_invariant(self);
        }
        self.stages.len()
    }

    /// The word as the player sees it.
    pub fn revealed_word(&self) -> (shown: String)
        ensures
            shown@ == self@.shown(),
    {
        get_revealed_word(self.word.as_str(), &self.guesses)
    }

    /// Whether the game is being played, won or lost.
    pub fn status(&self) -> (status: Status)
        ensures
            status == self@.status(),
            self@.wf(),
    {
        proof {
            use_type_invariant(self);
        }
        let shown = get_revealed_word(self.word.as_str(), &self.guesses);
        if shown == self.word {
            Status::Won
        } else if self.stage_index + 1 == self.stages.len() {
            Status::Lost
        } else {
            Status::Playing
        }
    }

    /// Takes the guess `c` and returns where the game stands after it.
    pub fn guess(&mut self, c: char) -> (status: Status)
        ensures
            final(self)@ == old(self)@.step(c),
            status == final(self)@.status(),
            final(self)@.wf(),
            old(self)@.stage <= final(self)@.stage <= old(self)@.stage + 1,
            old(self)@.word.contains(c) ==> final(self)@.stage == old(self)@.stage,
    {
        proof {
            use_type_invariant(&*self);
        }
        match self.status() {
            Status::Playing => {
                let mut guesses = Guesses::new();
                std::mem::swap(&mut guesses, &mut self.guesses);
                guesses.insert(c);
                self.guesses = guesses;
                if !contains_char(self.word.as_str(), c) {
                    self.stage_index = self.stage_index + 1;
                }
                self.status()
            },
            Status::Won => Status::Won,
            Status::Lost => Status::Lost,
        }
    }

    /// The frame of the current turn: the guesses, the drawing for the stage
    /// index and the revealed word.
    pub fn frame(&self) -> (frame: String)
        ensures
            frame@ == self@.frame(),
    {
        proof {
            use_type_invariant(self);
        }
        let shown = get_revealed_word(self.word.as_str(), &self.guesses);
        render_frame(&self.stages, self.stage_index, &self.guesses, shown.as_str())
    }

    /// What to print now, and whether the game is over.
    pub fn turn(&self) -> (turn: Turn)
        ensures
            turn.text@ == self@.turn_text(),
            turn.over == !(self@.status() is Playing),
    {
        match self.status() {
            Status::Playing => {
                let mut text = self.frame();
                text.append("\n");
                text.append(prompt_message().as_str());
                Turn { text, over: false }
            },
            Status::Won => {
                let mut text = self.frame();
                text.append("\n");
                text.append(win_message().as_str());
                Turn { text, over: true }
            },
            Status::Lost => Turn { text: loss_message(self.word.as_str()), over: true },
        }
    }

    /// Answers one line of input: the guess it stands for is taken, and the
    /// next turn is returned. A line without a character is an input error
    /// and leaves the game as it was.
    pub fn answer(&mut self, line: &str) -> (next: Result<Turn, GameError>)
        ensures
            match line_guess(line@) {
                Ok(c) => {
                    &&& final(self)@ == old(self)@.step(c)
                    &&& next matches Ok(turn)
                    &&& turn.text@ == final(self)@.turn_text()
                    &&& turn.over == !(final(self)@.status() is Playing)
                },
                Err(e) => {
                    &&& final(self)@ == old(self)@
                    &&& next matches Err(f)
                    &&& f == e
                },
            },
            final(self)@.wf(),
    {
        proof {
            use_type_invariant(&*self);
        }
        match guess_from_line(line) {
            Ok(c) => {
                self.guess(c);
                Ok(self.turn())
            },
            Err(e) => Err(e),
        }
    }
}

} // verus!
