//! Buttons: telling a click from a release.
use vstd::prelude::*;

verus! {

/// How the pointer relates to a button this frame.
#[derive(Clone, Copy, Debug, PartialEq, Eq, Structural)]
pub enum Interaction {
    Clicked,
    Hovered,
    Idle,
}

/// What a button did since the last change of its interaction.
#[derive(Clone, Copy, Debug, PartialEq, Eq, Structural)]
pub struct ButtonInteraction {
    pub just_pressed: bool,
    pub just_released: bool,
    pub previous_interaction_state: Interaction,
}

impl ButtonInteraction {
    /// A button at rest.
    pub fn new() -> (r: ButtonInteraction)
        ensures
            !r.just_pressed,
            !r.just_released,
            r.previous_interaction_state == Interaction::Idle,
    {
        ButtonInteraction {
            just_pressed: false,
            just_released: false,
            previous_interaction_state: Interaction::Idle,
        }
    }

    /// Records a new interaction: the button is released when it stops being
    /// clicked.
    pub fn update_button_interaction(&mut self, interaction: Interaction)
        ensures
            final(self).just_released == (interaction != Interaction::Clicked
                && old(self).previous_interaction_state == Interaction::Clicked),
            final(self).previous_interaction_state == interaction,
            final(self).just_pressed == old(self).just_pressed,
    {
        self.just_released = interaction != Interaction::Clicked && self.previous_interaction_state
            == Interaction::Clicked;
        self.previous_interaction_state = interaction;
    }
}

} // verus!
