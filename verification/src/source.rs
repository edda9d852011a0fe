//! Where the secret word comes from: the address to ask and the choice of
//! the word from the answer.

use crate::error::GameError;
use vstd::prelude::*;

verus! {

/// The shortest word that can be asked for.
pub const MIN_WORD_LENGTH: i64 = 2;

/// The longest word that can be asked for.
pub const MAX_WORD_LENGTH: i64 = 15;

/// The word length that is asked for: the requested one if it lies within
/// the accepted range, none otherwise.
pub open spec fn accepted_length(requested: Option<i64>) -> Option<i64> {
    match requested {
        Some(n) if MIN_WORD_LENGTH <= n <= MAX_WORD_LENGTH => Some(n),
        _ => None,
    }
}

/// The character for one decimal digit.
pub open spec fn digit(d: nat) -> char {
    if d == 0 {
        '0'
    } else if d == 1 {
        '1'
    } else if d == 2 {
        '2'
    } else if d == 3 {
        '3'
    } else if d == 4 {
        '4'
    } else if d == 5 {
        '5'
    } else if d == 6 {
        '6'
    } else if d == 7 {
        '7'
    } else if d == 8 {
        '8'
    } else {
        '9'
    }
}

/// The decimal numeral of `n`, without leading zeros.
pub open spec fn decimal(n: nat) -> Seq<char>
    decreases n,
{
    if n < 10 {
        seq![digit(n)]
    } else {
        decimal(n / 10).push(digit(n % 10))
    }
}

/// The address of the word service: the plain one, or with the length as a
/// query where an accepted length is requested.
pub open spec fn endpoint_text(requested: Option<i64>) -> Seq<char> {
    match accepted_length(requested) {
        None => "https://random-word-api.herokuapp.com/word"@,
        Some(n) => "https://random-word-api.herokuapp.com/word"@ + "?length="@ + decimal(n as nat),
    }
}

/// The word that an answer of the service stands for: the first of its
/// words. An answer without words is a parse error.
pub open spec fn chosen_word(words: Seq<Seq<char>>) -> Result<Seq<char>, GameError> {
    if words.len() == 0 {
        Err(GameError::Parse)
    } else {
        Ok(words[0])
    }
}

/// Keeps a requested word length only if it is one the service accepts.
pub fn accept_length(requested: Option<i64>) -> (length: Option<i64>)
    ensures
        length == accepted_length(requested),
{
    match requested {
        Some(n) => {
            if MIN_WORD_LENGTH <= n && n <= MAX_WORD_LENGTH {
                Some(n)
            } else {
                None
            }
        },
        None => None,
    }
}

fn digit_char(d: u8) -> (c: char)
    requires
        d < 10,
    ensures
        c == digit(d as nat),
{
    if d == 0 {
        '0'
    } else if d == 1 {
        '1'
    } else if d == 2 {
        '2'
    } else if d == 3 {
        '3'
    } else if d == 4 {
        '4'
    } else if d == 5 {
        '5'
    } else if d == 6 {
        '6'
    } else if d == 7 {
        '7'
    } else if d == 8 {
        '8'
    } else {
        '9'
    }
}

fn push_decimal(text: &mut String, n: u8)
    ensures
        final(text)@ == old(text)@ + decimal(n as nat),
    decreases n,
{
    if n >= 10 {
        push_decimal(text, n / 10);
    }
    text.push(digit_char(n % 10));
}

/// The address to ask for a word. A requested length outside the accepted
/// range is ignored, and the plain address is used.
pub fn word_endpoint(requested: Option<i64>) -> (url: String)
    ensures
        url@ == endpoint_text(requested),
{
    let mut url = "https://random-word-api.herokuapp.com/word".to_owned();
    match accept_length(requested) {
        Some(n) => {
            url.append("?length=");
            push_decimal(&mut url, n as u8);
        },
        None => {},
    }
    url
}

/// Picks the secret word from the words that the service answered with.
pub fn first_word(words: &Vec<String>) -> (word: Result<String, GameError>)
    ensures
        match chosen_word(words@.map_values(|w: String| w@)) {
            Ok(text) => word matches Ok(w) && w@ == text,
            Err(e) => word == Err::<String, GameError>(e),
        },
{
    if words.len() == 0 {
        Err(GameError::Parse)
    } else {
        Ok(words[0].clone())
    }
}

} // verus!
