//! What the player is shown: the frame of each turn and the closing message.

use crate::guesses::Guesses;
use vstd::prelude::*;

verus! {

/// The text that the standard library's `Debug` formatting gives for one
/// character: the character between single quotes, escaped where it would
/// not print as itself.
pub uninterp spec fn char_debug(c: char) -> Seq<char>;

/// Formats `c` with `{:?}`, that is with the standard library's
/// `<char as Debug>::fmt`. Taken on trust, and claiming little: the text is
/// the one that this formatting gives for `c`, which depends on `c` alone.
#[verifier::external_body]
fn debug_char(c: char) -> (text: String)
    ensures
        text@ == char_debug(c),
{
    format!("{:?}", c)
}

/// The guesses one after another, each as `char_debug` writes it, with a comma
/// and a space between two of them.
pub open spec fn listed(guessed: Seq<char>) -> Seq<char>
    decreases guessed.len(),
{
    if guessed.len() == 0 {
        Seq::empty()
    } else if guessed.len() == 1 {
        char_debug(guessed[0])
    } else {
        listed(guessed.drop_last()) + ", "@ + char_debug(guessed.last())
    }
}

/// The guesses as a set between braces.
pub open spec fn guesses_text(guessed: Seq<char>) -> Seq<char> {
    "{"@ + listed(guessed) + "}"@
}

/// One frame: the guesses, then the drawing, then the revealed word, each on
/// a line of its own.
pub open spec fn frame_text(guessed: Seq<char>, art: Seq<char>, shown: Seq<char>) -> Seq<char> {
    "Guesses:"@ + guesses_text(guessed) + "\n"@ + art + "\n"@ + shown
}

/// The line that asks for the next guess.
pub open spec fn prompt_text() -> Seq<char> {
    "Enter a guess:"@
}

/// The line that closes a won game.
pub open spec fn win_text() -> Seq<char> {
    "Congratulations! You guessed the word!"@
}

/// The line that closes a lost game: it gives the secret word away.
pub open spec fn loss_text(word: Seq<char>) -> Seq<char> {
    "Game Over! The word was: "@ + word
}

/// Writes the guesses as a set between braces, in the order of first entry.
pub fn render_guesses(guesses: &Guesses) -> (text: String)
    ensures
        text@ == guesses_text(guesses@),
{
    let mut text = "{".to_owned();
    let n = guesses.len();
    let mut i: usize = 0;
    while i < n
        invariant
            n == guesses@.len(),
            i <= n,
            text@ == "{"@ + listed(guesses@.take(i as int)),
        decreases n - i,
    {
        if i > 0 {
            text.append(", ");
        }
        let shown = debug_char(guesses.get(i));
        text.append(shown.as_str());
        proof {
            let before = guesses@.take(i as int);
            let after = guesses@.take(i + 1);
            assert(after.drop_last() == before);
            if i > 0 {
                assert(text@ == "{"@ + (listed(before) + ", "@ + char_debug(after.last())));
            } else {
                assert(text@ == "{"@ + char_debug(after[0]));
            }
        }
        i += 1;
    }
    assert(guesses@.take(n as int) == guesses@);
    text.append("}");
    text
}

/// Renders the frame of one turn: the guesses, the drawing for the current
/// stage index and the revealed word.
pub fn render_frame(
    stages: &Vec<String>,
    stage_index: usize,
    guesses: &Guesses,
    revealed_word: &str,
) -> (frame: String)
    requires
        stage_index < stages@.len(),
    ensures
        frame@ == frame_text(guesses@, stages@[stage_index as int]@, revealed_word@),
{
    let mut frame = "Guesses:".to_owned();
    let listed = render_guesses(guesses);
    frame.append(listed.as_str());
    frame.append("\n");
    frame.append(stages[stage_index].as_str());
    frame.append("\n");
    frame.append(revealed_word);
    frame
}

/// The line that asks for the next guess.
pub fn prompt_message() -> (message: String)
    ensures
        message@ == prompt_text(),
{
    "Enter a guess:".to_owned()
}

/// The line that closes a won game.
pub fn win_message() -> (message: String)
    ensures
        message@ == win_text(),
{
    "Congratulations! You guessed the word!".to_owned()
}

/// The line that closes a lost game on `word`.
pub fn loss_message(word: &str) -> (message: String)
    ensures
        message@ == loss_text(word@),
{
    let mut message = "Game Over! The word was: ".to_owned();
    message.append(word);
    message
}

} // verus!
