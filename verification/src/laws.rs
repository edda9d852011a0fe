//! What holds of every game, proved over the mathematical state.

use crate::game::GameState;
use crate::guesses::with_guess;
use crate::word::{revealed, PLACEHOLDER};
use vstd::prelude::*;

verus! {

/// Entering a guess adds that character to the set of guessed characters,
/// removes none, and records no character twice.
pub proof fn lemma_with_guess(entered: Seq<char>, c: char)
    ensures
        with_guess(entered, c).to_set() == entered.to_set().insert(c),
        entered.no_duplicates() ==> with_guess(entered, c).no_duplicates(),
        entered.len() <= with_guess(entered, c).len() <= entered.len() + 1,
{
    let next = with_guess(entered, c);
    assert forall|x: char| next.to_set().contains(x) <==> entered.to_set().insert(c).contains(
        x,
    ) by {
        if entered.contains(c) {
        } else {
            if entered.contains(x) {
                let i = choose|i: int| 0 <= i < entered.len() && entered[i] == x;
                assert(next[i] == x);
            }
            assert(next[entered.len() as int] == c);
        }
    }
    assert(next.to_set() =~= entered.to_set().insert(c));
}

/// Whatever has been guessed, the revealed word is as long as the secret
/// word, and each of its positions holds the character of the word if that
/// character is guessed and the placeholder if it is not.
pub proof fn lemma_revealed_positions(word: Seq<char>, guessed: Set<char>)
    ensures
        revealed(word, guessed).len() == word.len(),
        forall|i: int|
            0 <= i < word.len() ==> #[trigger] revealed(word, guessed)[i] == (if guessed.contains(
                word[i],
            ) {
                word[i]
            } else {
                PLACEHOLDER
            }),
{
}

/// The revealed word equals the secret word exactly when every character of
/// the word is either guessed or the placeholder itself.
pub proof fn lemma_fully_revealed(word: Seq<char>, guessed: Set<char>)
    ensures
        revealed(word, guessed) == word <==> forall|i: int|
            0 <= i < word.len() ==> guessed.contains(#[trigger] word[i]) || word[i] == PLACEHOLDER,
{
    let shown = revealed(word, guessed);
    if forall|i: int|
        0 <= i < word.len() ==> guessed.contains(#[trigger] word[i]) || word[i] == PLACEHOLDER {
        assert(shown =~= word);
    }
    if shown == word {
        assert forall|i: int| 0 <= i < word.len() implies guessed.contains(#[trigger] word[i])
            || word[i] == PLACEHOLDER by {
            assert(shown[i] == word[i]);
        }
    }
}

/// One guess never lowers the stage index, raises it by at most one, and
/// leaves it inside the table; the word and the table stay as they are.
pub proof fn lemma_step_stage(s: GameState, c: char)
    requires
        s.wf(),
    ensures
        s.step(c).wf(),
        s.stage <= s.step(c).stage <= s.stage + 1,
        s.step(c).stage <= s.stages() - 1,
        s.step(c).word == s.word,
        s.step(c).table == s.table,
{
    lemma_with_guess(s.guessed, c);
}

/// Across a whole game the stage index never decreases and never leaves the
/// table: after any `i` guesses it is at most what it is after `j >= i`
/// guesses, and that is at most the index of the last drawing.
pub proof fn lemma_stage_monotonic(s: GameState, cs: Seq<char>, i: int, j: int)
    requires
        s.wf(),
        0 <= i <= j <= cs.len(),
    ensures
        s.run(cs.take(j)).wf(),
        s.run(cs.take(j)).word == s.word,
        s.run(cs.take(j)).table == s.table,
        s.run(cs.take(i)).stage <= s.run(cs.take(j)).stage <= s.stages() - 1,
    decreases j,
{
    if j == 0 {
        assert(cs.take(0).len() == 0);
    } else {
        assert(cs.take(j).drop_last() =~= cs.take(j - 1));
        if i < j {
            lemma_stage_monotonic(s, cs, i, j - 1);
        } else {
            lemma_stage_monotonic(s, cs, j - 1, j - 1);
        }
        lemma_step_stage(s.run(cs.take(j - 1)), cs.take(j).last());
    }
}

/// Guessing a character of the word that was guessed before changes nothing:
/// the stage index does not move, and neither does anything else.
pub proof fn lemma_repeated_correct_guess(s: GameState, c: char)
    requires
        s.word.contains(c),
        s.guessed.contains(c),
    ensures
        s.step(c).stage == s.stage,
        s.step(c) == s,
{
}

/// A guess that occurs in the word never raises the stage index, whether it
/// is new or not.
pub proof fn lemma_correct_guess_keeps_stage(s: GameState, c: char)
    requires
        s.word.contains(c),
    ensures
        s.step(c).stage == s.stage,
{
}

/// What guessing only characters of the word leads to: the stage index stays
/// at zero, and the game is either won or every guess so far is recorded.
proof fn lemma_correct_guesses_prefix(word: Seq<char>, table: Seq<Seq<char>>, cs: Seq<char>, k: int)
    requires
        table.len() >= 2,
        forall|i: int| 0 <= i < cs.len() ==> word.contains(#[trigger] cs[i]),
        0 <= k <= cs.len(),
    ensures
        ({
            let s = GameState::start(word, table).run(cs.take(k));
            &&& s.word == word
            &&& s.table == table
            &&& s.stage == 0
            &&& !(s.status() is Lost)
            &&& s.status() is Won || forall|i: int|
                0 <= i < k ==> s.guessed.to_set().contains(#[trigger] cs[i])
        }),
    decreases k,
{
    let start = GameState::start(word, table);
    if k == 0 {
        assert(cs.take(0).len() == 0);
    } else {
        assert(cs.take(k).drop_last() =~= cs.take(k - 1));
        lemma_correct_guesses_prefix(word, table, cs, k - 1);
        let before = start.run(cs.take(k - 1));
        let c = cs.take(k).last();
        assert(c == cs[k - 1]);
        let after = before.step(c);
        assert(after == start.run(cs.take(k)));
        lemma_with_guess(before.guessed, c);
        if before.status() is Playing {
            assert forall|i: int| 0 <= i < k implies after.guessed.to_set().contains(
                #[trigger] cs[i],
            ) by {
                if i < k - 1 {
                    assert(before.guessed.to_set().contains(cs[i]));
                }
            }
        }
    }
}

/// Guessing every character of the word, with no wrong guess in between,
/// wins the game: at the end the revealed word is the secret word, and at no
/// point on the way does the stage index leave zero, so the last drawing is
/// never reached. A table must hold at least two drawings for this, since
/// with a single one the first drawing is already the last.
pub proof fn lemma_correct_guesses_win(word: Seq<char>, table: Seq<Seq<char>>, cs: Seq<char>)
    requires
        table.len() >= 2,
        forall|i: int| 0 <= i < cs.len() ==> word.contains(#[trigger] cs[i]),
        forall|j: int| 0 <= j < word.len() ==> cs.contains(#[trigger] word[j]),
    ensures
        GameState::start(word, table).run(cs).status() is Won,
        GameState::start(word, table).run(cs).shown() == word,
        forall|k: int|
            0 <= k <= cs.len() ==> (#[trigger] GameState::start(word, table).run(
                cs.take(k),
            )).stage == 0,
        forall|k: int|
            0 <= k <= cs.len() ==> !((#[trigger] GameState::start(word, table).run(
                cs.take(k),
            )).status() is Lost),
{
    let start = GameState::start(word, table);
    assert forall|k: int| 0 <= k <= cs.len() implies (#[trigger] start.run(cs.take(k))).stage == 0
        && !(start.run(cs.take(k)).status() is Lost) by {
        lemma_correct_guesses_prefix(word, table, cs, k);
    }
    lemma_correct_guesses_prefix(word, table, cs, cs.len() as int);
    assert(cs.take(cs.len() as int) =~= cs);
    let end = start.run(cs);
    if !(end.status() is Won) {
        assert forall|j: int| 0 <= j < word.len() implies end.guessed.to_set().contains(
            #[trigger] word[j],
        ) by {
            let i = choose|i: int| 0 <= i < cs.len() && cs[i] == word[j];
            assert(end.guessed.to_set().contains(cs[i]));
        }
        lemma_fully_revealed(word, end.guessed.to_set());
    }
}

/// What guessing only characters outside the word leads to: each guess
/// raises the stage index by one until the last drawing is reached.
proof fn lemma_wrong_guesses_prefix(word: Seq<char>, table: Seq<Seq<char>>, cs: Seq<char>, k: int)
    requires
        table.len() >= 1,
        exists|j: int| 0 <= j < word.len() && word[j] != PLACEHOLDER,
        forall|i: int| 0 <= i < cs.len() ==> !word.contains(#[trigger] cs[i]),
        0 <= k <= cs.len(),
        k <= table.len() - 1,
    ensures
        ({
            let s = GameState::start(word, table).run(cs.take(k));
            &&& s.word == word
            &&& s.table == table
            &&& s.stage == k
            &&& forall|x: char| s.guessed.to_set().contains(x) ==> !word.contains(x)
            &&& s.shown() != word
        }),
    decreases k,
{
    let start = GameState::start(word, table);
    let j = choose|j: int| 0 <= j < word.len() && word[j] != PLACEHOLDER;
    if k == 0 {
        assert(cs.take(0).len() == 0);
        assert(start.shown()[j] == PLACEHOLDER);
    } else {
        assert(cs.take(k).drop_last() =~= cs.take(k - 1));
        lemma_wrong_guesses_prefix(word, table, cs, k - 1);
        let before = start.run(cs.take(k - 1));
        let c = cs.take(k).last();
        assert(c == cs[k - 1]);
        let after = before.step(c);
        assert(after == start.run(cs.take(k)));
        assert(before.status() is Playing);
        lemma_with_guess(before.guessed, c);
        assert(word.contains(word[j]));
        assert(after.shown()[j] == PLACEHOLDER);
    }
}

/// Guessing as many characters outside the word as the table has drawings
/// after the first loses the game, in whatever order they come: the stage
/// index ends at the last drawing and the revealed word is still not the
/// secret word. The word must hold a character other than the placeholder,
/// since a word without one counts as revealed from the start.
pub proof fn lemma_wrong_guesses_lose(word: Seq<char>, table: Seq<Seq<char>>, cs: Seq<char>)
    requires
        table.len() >= 1,
        exists|j: int| 0 <= j < word.len() && word[j] != PLACEHOLDER,
        cs.len() == table.len() - 1,
        forall|i: int| 0 <= i < cs.len() ==> !word.contains(#[trigger] cs[i]),
    ensures
        GameState::start(word, table).run(cs).stage == table.len() - 1,
        GameState::start(word, table).run(cs).status() is Lost,
        GameState::start(word, table).run(cs).shown() == revealed(word, Set::empty()),
        forall|k: int|
            0 <= k <= cs.len() ==> (#[trigger] GameState::start(word, table).run(
                cs.take(k),
            )).stage == k,
{
    let start = GameState::start(word, table);
    assert forall|k: int| 0 <= k <= cs.len() implies (#[trigger] start.run(cs.take(k))).stage
        == k by {
        lemma_wrong_guesses_prefix(word, table, cs, k);
    }
    lemma_wrong_guesses_prefix(word, table, cs, cs.len() as int);
    assert(cs.take(cs.len() as int) =~= cs);
    let end = start.run(cs);
    assert(end.shown() =~= revealed(word, Set::empty())) by {
        assert forall|i: int| 0 <= i < word.len() implies !end.guessed.to_set().contains(
            #[trigger] word[i],
        ) by {
            assert(word.contains(word[i]));
        }
    }
}

} // verus!
