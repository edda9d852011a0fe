//! The rules of hangman: a secret word, the characters guessed so far, and a
//! counter of wrong guesses that walks through a fixed table of gallows
//! drawings. Everything here is pure; reading guesses, fetching a word and
//! printing frames are left to the program that uses this library.

pub mod error;
pub mod game;
pub mod guesses;
pub mod input;
pub mod laws;
pub mod render;
pub mod source;
pub mod stages;
pub mod text;
pub mod word;
