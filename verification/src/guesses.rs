//! The set of characters a player has entered.

use vstd::prelude::*;

verus! {

/// What a sequence of distinct guesses becomes when `c` is entered: unchanged
/// if `c` is already there, otherwise `c` is added at the end.
pub open spec fn with_guess(entered: Seq<char>, c: char) -> Seq<char> {
    if entered.contains(c) {
        entered
    } else {
        entered.push(c)
    }
}

/// The characters guessed so far. Each character is kept once, in the order
/// in which it was first entered; the set only ever grows.
pub struct Guesses {
    entered: Vec<char>,
}

impl View for Guesses {
    type V = Seq<char>;

    closed spec fn view(&self) -> Seq<char> {
        self.entered@
    }
}

impl Guesses {
    #[verifier::type_invariant]
    spec fn distinct(self) -> bool {
        self.entered@.no_duplicates()
    }

    /// The empty set of guesses.
    pub fn new() -> (guesses: Guesses)
        ensures
            guesses@ == Seq::<char>::empty(),
            guesses@.no_duplicates(),
    {
        Guesses { entered: Vec::new() }
    }

    /// How many distinct characters have been guessed.
    pub fn len(&self) -> (n: usize)
        ensures
            n == self@.len(),
            self@.no_duplicates(),
    {
        proof {
            use_type_invariant(self);
        }
        self.entered.len()
    }

    /// Whether no character has been guessed yet.
    pub fn is_empty(&self) -> (empty: bool)
        ensures
            empty == (self@.len() == 0),
    {
        self.entered.len() == 0
    }

    /// The `i`-th distinct guess, counting from the first one entered.
    pub fn get(&self, i: usize) -> (c: char)
        requires
            i < self@.len(),
        ensures
            c == self@[i as int],
    {
        self.entered[i]
    }

    /// Whether `c` has been guessed.
    pub fn contains(&self, c: char) -> (found: bool)
        ensures
            found == self@.contains(c),
    {
        let mut i: usize = 0;
        while i < self.entered.len()
            invariant
                i <= self.entered@.len(),
                forall|j: int| 0 <= j < i ==> self.entered@[j] != c,
            decreases self.entered@.len() - i,
        {
            if self.entered[i] == c {
                return true;
            }
            i += 1;
        }
        false
    }

    /// Enters the guess `c`. Returns whether `c` was new; a character that is
    /// already present is accepted and changes nothing.
    pub fn insert(&mut self, c: char) -> (added: bool)
        ensures
            added == !old(self)@.contains(c),
            final(self)@ == with_guess(old(self)@, c),
            final(self)@.no_duplicates(),
    {
        proof {
            use_type_invariant(&*self);
        }
        if self.contains(c) {
            false
        } else {
            let mut entered: Vec<char> = Vec::new();
            std::mem::swap(&mut entered, &mut self.entered);
            entered.push(c);
            self.entered = entered;
            true
        }
    }
}

} // verus!
