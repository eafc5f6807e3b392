//! Player controls: which keys steer and launch, and what they ask for.
use vstd::prelude::*;

verus! {

/// A control of the game.
#[derive(Clone, Copy, Debug, PartialEq, Eq, Structural)]
pub enum GameControl {
    Left,
    Right,
    Action,
}

/// The keys and buttons read in one frame.
#[derive(Clone, Copy, Debug, PartialEq, Eq, Structural, Default)]
pub struct ControlInput {
    /// Held down.
    pub key_a: bool,
    pub key_left: bool,
    pub key_d: bool,
    pub key_right: bool,
    /// Went down this frame.
    pub space_just_pressed: bool,
    pub mouse_left_just_pressed: bool,
}

/// What the player asks of the paddle: -1 left, 1 right, `None` at rest.
#[derive(Clone, Copy, Debug, PartialEq, Eq, Structural, Default)]
pub struct Actions {
    pub player_movement: Option<i8>,
}

/// A one-off input signal.
#[derive(Clone, Copy, Debug, PartialEq, Eq, Structural)]
pub enum InputEvent {
    PrimaryAction,
}

/// Left is A or the left arrow, right is D or the right arrow; the action is a
/// fresh press of space or of the left mouse button.
pub open spec fn control_pressed(control: GameControl, input: ControlInput) -> bool {
    match control {
        GameControl::Left => input.key_a || input.key_left,
        GameControl::Right => input.key_d || input.key_right,
        GameControl::Action => input.space_just_pressed || input.mouse_left_just_pressed,
    }
}

pub open spec fn movement_of(control: GameControl, input: ControlInput) -> int {
    if control_pressed(control, input) {
        1
    } else {
        0
    }
}

/// Right minus left, or nothing where they cancel.
pub open spec fn player_movement_of(input: ControlInput) -> Option<i8> {
    let m = movement_of(GameControl::Right, input) - movement_of(GameControl::Left, input);
    if m != 0 {
        Some(m as i8)
    } else {
        None
    }
}

impl GameControl {
    /// Whether this control is pressed in `input`.
    pub fn pressed(&self, input: &ControlInput) -> (r: bool)
        ensures
            r == control_pressed(*self, *input),
    {
        match self {
            GameControl::Left => input.key_a || input.key_left,
            GameControl::Right => input.key_d || input.key_right,
            GameControl::Action => input.space_just_pressed || input.mouse_left_just_pressed,
        }
    }
}

/// 1 when `control` is pressed, else 0.
pub fn get_movement(control: GameControl, input: &ControlInput) -> (r: i8)
    ensures
        r == movement_of(control, *input),
{
    if control.pressed(input) {
        1
    } else {
        0
    }
}

/// Records the horizontal movement the player asks for.
pub fn set_movement_actions(actions: &mut Actions, input: &ControlInput)
    ensures
        final(actions).player_movement == player_movement_of(*input),
{
    let player_movement = get_movement(GameControl::Right, input) - get_movement(
        GameControl::Left,
        input,
    );
    if player_movement != 0 {
        actions.player_movement = Some(player_movement);
    } else {
        actions.player_movement = None;
    }
}

/// Sends the primary action when the action control is pressed.
pub fn call_input_events(input_events: &mut Vec<InputEvent>, input: &ControlInput)
    ensures
        final(input_events)@ == if control_pressed(GameControl::Action, *input) {
            old(input_events)@.push(InputEvent::PrimaryAction)
        } else {
            old(input_events)@
        },
{
    if GameControl::Action.pressed(input) {
        input_events.push(InputEvent::PrimaryAction);
    }
}

} // verus!
