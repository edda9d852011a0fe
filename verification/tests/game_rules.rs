use hangman::error::GameError;
use hangman::game::{Game, Status};
use hangman::stages::get_stages;

fn table(n: usize) -> Vec<String> {
    (0..n).map(|i| format!("drawing {}", i)).collect()
}

fn play(word: &str, stages: usize, guesses: &str) -> Game {
    let mut game = Game::new(word.to_string(), table(stages));
    for c in guesses.chars() {
        game.guess(c);
    }
    game
}

#[test]
fn a_new_game_is_being_played_at_stage_zero() {
    let game = Game::new("cat".to_string(), get_stages());
    assert_eq!(game.status(), Status::Playing);
    assert_eq!(game.stage_index(), 0);
    assert_eq!(game.stage_count(), 7);
    assert_eq!(game.word(), "cat");
    assert!(game.guesses().is_empty());
    assert_eq!(game.revealed_word(), "___");
}

#[test]
fn guessing_c_a_t_wins_cat_without_a_wrong_guess() {
    let mut game = Game::new("cat".to_string(), get_stages());
    assert_eq!(game.guess('c'), Status::Playing);
    assert_eq!(game.revealed_word(), "c__");
    assert_eq!(game.stage_index(), 0);
    assert_eq!(game.guess('a'), Status::Playing);
    assert_eq!(game.revealed_word(), "ca_");
    assert_eq!(game.stage_index(), 0);
    assert_eq!(game.guess('t'), Status::Won);
    assert_eq!(game.revealed_word(), "cat");
    assert_eq!(game.stage_index(), 0);
    assert_eq!(game.status(), Status::Won);
}

#[test]
fn six_wrong_guesses_lose_cat() {
    let mut game = Game::new("cat".to_string(), get_stages());
    let wrong = ['x', 'y', 'z', 'w', 'v', 'u'];
    for (i, c) in wrong.iter().enumerate() {
        let status = game.guess(*c);
        assert_eq!(game.stage_index(), i + 1);
        assert_eq!(game.revealed_word(), "___");
        if i + 1 < wrong.len() {
            assert_eq!(status, Status::Playing);
        } else {
            assert_eq!(status, Status::Lost);
        }
    }
    assert_eq!(game.stage_index(), 6);
    assert_eq!(game.status(), Status::Lost);
    assert_eq!(game.revealed_word(), "___");
}

#[test]
fn wrong_guesses_lose_in_any_order() {
    for order in ["xyzwvu", "uvwzyx", "zxuwyv"] {
        let game = play("cat", 7, order);
        assert_eq!(game.stage_index(), 6);
        assert_eq!(game.status(), Status::Lost);
    }
}

#[test]
fn the_stage_index_never_decreases_and_stays_in_the_table() {
    let mut game = Game::new("banana".to_string(), table(4));
    let mut last = game.stage_index();
    for c in "bxnyazqqq".chars() {
        game.guess(c);
        let now = game.stage_index();
        assert!(now >= last);
        assert!(now <= last + 1);
        assert!(now <= 3);
        last = now;
    }
}

#[test]
fn guessing_a_revealed_letter_again_costs_nothing() {
    let mut game = Game::new("cat".to_string(), get_stages());
    game.guess('c');
    game.guess('x');
    assert_eq!(game.stage_index(), 1);
    assert_eq!(game.guess('c'), Status::Playing);
    assert_eq!(game.stage_index(), 1);
    assert_eq!(game.guesses().len(), 2);
    assert_eq!(game.revealed_word(), "c__");
}

#[test]
fn guessing_a_wrong_letter_again_counts_again() {
    let mut game = Game::new("cat".to_string(), get_stages());
    game.guess('x');
    game.guess('x');
    assert_eq!(game.stage_index(), 2);
    assert_eq!(game.guesses().len(), 1);
}

#[test]
fn every_letter_of_the_word_in_any_order_wins() {
    for order in ["banana", "nab", "abn", "nnaabb"] {
        let game = play("banana", 3, order);
        assert_eq!(game.status(), Status::Won);
        assert_eq!(game.stage_index(), 0);
        assert_eq!(game.revealed_word(), "banana");
    }
}

#[test]
fn a_finished_game_ignores_further_guesses() {
    let mut won = play("cat", 7, "cat");
    assert_eq!(won.guess('x'), Status::Won);
    assert_eq!(won.stage_index(), 0);
    assert_eq!(won.guesses().len(), 3);

    let mut lost = play("cat", 3, "xy");
    assert_eq!(lost.status(), Status::Lost);
    assert_eq!(lost.guess('c'), Status::Lost);
    assert_eq!(lost.guess('z'), Status::Lost);
    assert_eq!(lost.stage_index(), 2);
    assert_eq!(lost.revealed_word(), "___");
    assert_eq!(lost.guesses().len(), 2);
}

#[test]
fn the_last_allowed_wrong_guess_loses() {
    let mut game = Game::new("cat".to_string(), table(2));
    assert_eq!(game.status(), Status::Playing);
    assert_eq!(game.guess('c'), Status::Playing);
    assert_eq!(game.guess('q'), Status::Lost);
    assert_eq!(game.stage_index(), 1);
}

#[test]
fn a_table_of_one_drawing_is_lost_from_the_start() {
    let mut game = Game::new("cat".to_string(), table(1));
    assert_eq!(game.status(), Status::Lost);
    assert_eq!(game.guess('c'), Status::Lost);
    assert_eq!(game.stage_index(), 0);
    assert!(game.guesses().is_empty());
}

#[test]
fn a_word_without_hidden_letters_is_won_from_the_start() {
    assert_eq!(Game::new(String::new(), get_stages()).status(), Status::Won);
    assert_eq!(Game::new("__".to_string(), get_stages()).status(), Status::Won);
    assert_eq!(Game::new(String::new(), table(1)).status(), Status::Won);
}

#[test]
fn the_opening_turn_shows_the_frame_and_asks_for_a_guess() {
    let game = Game::new("cat".to_string(), get_stages());
    let turn = game.turn();
    assert!(!turn.over);
    assert_eq!(
        turn.text,
        "Guesses:{}\n  +---+\n  |   |\n      |\n      |\n      |\n      |\n=========\n___\nEnter a guess:"
    );
    assert_eq!(game.frame(), "Guesses:{}\n  +---+\n  |   |\n      |\n      |\n      |\n      |\n=========\n___");
}

#[test]
fn a_line_is_answered_by_its_first_character() {
    let mut game = Game::new("cat".to_string(), table(3));
    let turn = game.answer("cat\n").unwrap();
    assert!(!turn.over);
    assert_eq!(turn.text, "Guesses:{'c'}\ndrawing 0\nc__\nEnter a guess:");
    assert_eq!(game.guesses().len(), 1);
    assert!(game.guesses().contains('c'));

    let turn = game.answer("\n").unwrap();
    assert!(!turn.over);
    assert_eq!(turn.text, "Guesses:{'c', '\\n'}\ndrawing 1\nc__\nEnter a guess:");
    assert_eq!(game.stage_index(), 1);
}

#[test]
fn the_winning_turn_shows_the_frame_and_congratulates() {
    let mut game = Game::new("hi".to_string(), table(3));
    game.answer("h").unwrap();
    let turn = game.answer("i").unwrap();
    assert!(turn.over);
    assert_eq!(
        turn.text,
        "Guesses:{'h', 'i'}\ndrawing 0\nhi\nCongratulations! You guessed the word!"
    );
    assert_eq!(game.status(), Status::Won);
}

#[test]
fn the_losing_turn_gives_the_word_away() {
    let mut game = Game::new("hi".to_string(), table(3));
    game.answer("x").unwrap();
    let turn = game.answer("y").unwrap();
    assert!(turn.over);
    assert_eq!(turn.text, "Game Over! The word was: hi");
    assert_eq!(game.status(), Status::Lost);
}

#[test]
fn an_empty_line_is_an_input_error_and_changes_nothing() {
    let mut game = Game::new("cat".to_string(), get_stages());
    game.guess('x');
    match game.answer("") {
        Err(e) => assert_eq!(e, GameError::Input),
        Ok(_) => panic!("an empty line gave a turn"),
    }
    assert_eq!(game.stage_index(), 1);
    assert_eq!(game.guesses().len(), 1);
    assert_eq!(game.status(), Status::Playing);
}
