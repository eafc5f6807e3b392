//! The end of a round by clearing the field.
use vstd::prelude::*;
use crate::block::{only_gold_left, only_gold_remains, Block};
use crate::score::AudioCue;
use crate::GameState;

verus! {

/// Wins the round once no block but gold is left: the game moves to the win
/// screen and the win cue plays.
pub fn check_for_win(blocks: &Vec<Option<Block>>, state: &mut GameState) -> (cue: Option<AudioCue>)
    ensures
        only_gold_left(blocks@) ==> *final(state) == GameState::Win && cue == Some(AudioCue::Win),
        !only_gold_left(blocks@) ==> *final(state) == *old(state) && cue.is_none(),
{
    if only_gold_remains(blocks) {
        *state = GameState::Win;
        Some(AudioCue::Win)
    } else {
        None
    }
}

} // verus!
