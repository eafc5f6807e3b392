//! Lives of the player and the loss of a ball.
use vstd::prelude::*;
use crate::ball::{Arena, BallResetEvent};
use crate::score::AudioCue;
use crate::GameState;

verus! {

/// Lives a player starts with.
pub const STARTING_LIVES: u32 = 3;

#[derive(Clone, Copy, Debug, PartialEq, Eq, Structural)]
pub struct Lives {
    lives: u32,
}

/// Whether a loss left the player without lives.
#[derive(Clone, Copy, Debug, PartialEq, Eq, Structural)]
pub struct LivesReachedZero {
    lives_reached_zero: bool,
}

impl Lives {
    pub closed spec fn count(self) -> nat {
        self.lives as nat
    }

    /// Lives left.
    pub fn lives(&self) -> (r: u32)
        ensures
            r == self.count(),
    {
        self.lives
    }

    /// Takes `amount` lives away, stopping at zero.
    #[must_use]
    pub fn lose(&mut self, amount: u32) -> (r: LivesReachedZero)
        ensures
            final(self).count() == if amount >= old(self).count() {
                0
            } else {
                old(self).count() - amount
            },
            r.reached_zero() == (final(self).count() == 0),
    {
        if amount >= self.lives {
            self.lives = 0;
        } else {
            self.lives = self.lives - amount;
        }
        LivesReachedZero { lives_reached_zero: self.lives == 0 }
    }
}

impl Default for Lives {
    fn default() -> (r: Lives)
        ensures
            r.count() == STARTING_LIVES,
    {
        Lives { lives: STARTING_LIVES }
    }
}

impl LivesReachedZero {
    pub closed spec fn reached_zero(self) -> bool {
        self.lives_reached_zero
    }

    pub fn lives_reached_zero(&self) -> (r: bool)
        ensures
            r == self.reached_zero(),
    {
        self.lives_reached_zero
    }
}

/// The ball has fallen past the bottom edge.
pub open spec fn ball_lost(ball_y: int, arena: Arena) -> bool {
    ball_y < -arena.half_height
}

/// Takes a life when the ball has fallen past the bottom edge: the game is over
/// when none is left, and either way a new ball is asked for. Returns the cue
/// to play.
pub fn lose_lives(
    ball_y: i64,
    arena: &Arena,
    lives: &mut Lives,
    state: &mut GameState,
    reset_events: &mut Vec<BallResetEvent>,
) -> (cue: Option<AudioCue>)
    requires
        arena.half_height >= 0,
    ensures
        !ball_lost(ball_y as int, *arena) ==> {
            &&& *final(lives) == *old(lives)
            &&& *final(state) == *old(state)
            &&& final(reset_events)@ == old(reset_events)@
            &&& cue.is_none()
        },
        ball_lost(ball_y as int, *arena) ==> {
            &&& final(lives).count() == if old(lives).count() == 0 {
                0
            } else {
                old(lives).count() - 1
            }
            &&& final(reset_events)@ == old(reset_events)@.push(BallResetEvent)
            &&& final(lives).count() == 0 ==> *final(state) == GameState::GameOver && cue == Some(
                AudioCue::Lose,
            )
            &&& final(lives).count() > 0 ==> *final(state) == *old(state) && cue == Some(
                AudioCue::LoseLife,
            )
        },
{
    if ball_y < -arena.half_height {
        let cue = if lives.lose(1).lives_reached_zero() {
            *state = GameState::GameOver;
            AudioCue::Lose
        } else {
            AudioCue::LoseLife
        };
        reset_events.push(BallResetEvent);
        Some(cue)
    } else {
        None
    }
}

} // verus!
