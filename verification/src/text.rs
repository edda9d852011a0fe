//! Building strings one character at a time.

use vstd::prelude::*;

verus! {

/// `String::push` of the standard library, which is taken on trust: it
/// appends the one character `ch` to the end of the string and leaves what
/// was there before in place.
pub assume_specification[ String::push ](s: &mut String, ch: char)
    ensures
        final(s)@ == old(s)@.push(ch),
;

} // verus!
