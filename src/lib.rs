//! Ball physics, block durability and round rules of a block-breaking arcade
//! game, on integer fixed-point geometry.
use vstd::prelude::*;

pub mod actions;
pub mod ball;
pub mod block;
pub mod boost;
pub mod cursor;
pub mod geometry;
pub mod level;
pub mod lives;
pub mod paddle;
pub mod score;
pub mod ui;
pub mod win;

verus! {

/// The screen the game is on.
#[derive(Clone, Copy, Debug, PartialEq, Eq, Structural, Hash)]
pub enum GameState {
    Loading,
    Menu,
    Help,
    Playing,
    Win,
    GameOver,
}

/// A released button moves the game to the button's target state.
pub fn set_state_button(just_released: bool, target: GameState, state: &mut GameState)
    ensures
        *final(state) == if just_released {
            target
        } else {
            *old(state)
        },
{
    if just_released {
        *state = target;
    }
}

} // verus!
