//! The gallows drawings, one for each count of wrong guesses.

use vstd::prelude::*;

verus! {

/// How many drawings the table holds. The last one is the lost game, so a
/// player may guess wrong one time fewer than this.
pub const STAGE_COUNT: usize = 7;

/// The drawing shown after `wrong` wrong guesses.
pub open spec fn stage_art(wrong: int) -> Seq<char> {
    if wrong == 0 {
        "  +---+\n  |   |\n      |\n      |\n      |\n      |\n========="@
    } else if wrong == 1 {
        "  +---+\n  |   |\n  O   |\n      |\n      |\n      |\n========="@
    } else if wrong == 2 {
        "  +---+\n  |   |\n  O   |\n  |   |\n      |\n      |\n========="@
    } else if wrong == 3 {
        "  +---+\n  |   |\n  O   |\n /|   |\n      |\n      |\n========="@
    } else if wrong == 4 {
        "  +---+\n  |   |\n  O   |\n /|\\  |\n      |\n      |\n========="@
    } else if wrong == 5 {
        "  +---+\n  |   |\n  O   |\n /|\\  |\n /    |\n      |\n========="@
    } else {
        "  +---+\n  |   |\n  O   |\n /|\\  |\n / \\  |\n      |\n========="@
    }
}

/// The table of drawings, from the empty gallows to the hanged man.
pub fn get_stages() -> (stages: Vec<String>)
    ensures
        stages@.len() == STAGE_COUNT,
        forall|wrong: int| 0 <= wrong < STAGE_COUNT ==> (#[trigger] stages@[wrong])@ == stage_art(wrong),
{
    let mut stages: Vec<String> = Vec::new();
    stages.push("  +---+\n  |   |\n      |\n      |\n      |\n      |\n=========".to_owned());
    stages.push("  +---+\n  |   |\n  O   |\n      |\n      |\n      |\n=========".to_owned());
    stages.push("  +---+\n  |   |\n  O   |\n  |   |\n      |\n      |\n=========".to_owned());
    stages.push("  +---+\n  |   |\n  O   |\n /|   |\n      |\n      |\n=========".to_owned());
    stages.push("  +---+\n  |   |\n  O   |\n /|\\  |\n      |\n      |\n=========".to_owned());
    stages.push("  +---+\n  |   |\n  O   |\n /|\\  |\n /    |\n      |\n=========".to_owned());
    stages.push("  +---+\n  |   |\n  O   |\n /|\\  |\n / \\  |\n      |\n=========".to_owned());
    stages
}

} // verus!
