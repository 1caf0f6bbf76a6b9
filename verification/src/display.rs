//! What the host shows of the game beyond the state's own fields.

use vstd::prelude::*;

verus! {

/// The line below the panel: the end of the game, or a word of praise at the
/// moment the score stands at one, five, ten or twenty-five, and a blank
/// otherwise.
pub open spec fn milestone_text(score: nat, game_over: bool) -> Seq<char> {
    if game_over {
        "Game over..."@
    } else if score == 1 {
        "Good busy!"@
    } else if score == 5 {
        "5 particles found already!"@
    } else if score == 10 {
        "10 found! You are a real pro"@
    } else if score == 25 {
        "25 found! I would consider a career switch"@
    } else {
        " "@
    }
}

/// Picks the line to show below the panel.
pub fn milestone_message(score: u32, game_over: bool) -> (text: &'static str)
    ensures
        text@ == milestone_text(score as nat, game_over),
{
    if game_over {
        "Game over..."
    } else if score == 1 {
        "Good busy!"
    } else if score == 5 {
        "5 particles found already!"
    } else if score == 10 {
        "10 found! You are a real pro"
    } else if score == 25 {
        "25 found! I would consider a career switch"
    } else {
        " "
    }
}

} // verus!
