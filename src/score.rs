//! Points and audio cues of a round.
use vstd::prelude::*;

verus! {

/// Points gathered in a round.
#[derive(Clone, Copy, Debug, PartialEq, Eq, Structural, Default, Hash)]
pub struct Score(pub u32);

/// A sound the game asks to play.
#[derive(Clone, Copy, Debug, PartialEq, Eq, Structural)]
pub enum AudioCue {
    Bounce,
    BlockBreak,
    BlockBounce,
    Win,
    Lose,
    LoseLife,
}

/// `a + b`, held at the largest score.
pub open spec fn saturating_sum(a: int, b: int) -> int {
    if a + b > u32::MAX {
        u32::MAX as int
    } else {
        a + b
    }
}

impl Score {
    /// Adds `points`, holding at the largest value.
    pub fn add_points(&mut self, points: u32)
        ensures
            final(self).0 == saturating_sum(old(self).0 as int, points as int),
    {
        self.0 = self.0.saturating_add(points);
    }
}

} // verus!
