//! Boosts: pickups that fall from the top and are caught with the paddle.
use vstd::prelude::*;
use crate::geometry::{div_toward_zero, trunc_div, Vec2i, COORD_LIMIT, UNIT};

verus! {

/// Fall speed of a new boost: 150 pixels per second, in units per second.
pub const BOOST_SPEED: u32 = 150_000;

#[derive(Clone, Copy, Debug, PartialEq, Eq, Structural)]
pub enum BoostType {
    Life,
}

#[derive(Clone, Copy, Debug, PartialEq, Eq, Structural)]
pub struct Boost {
    pub kind: BoostType,
    /// Units per second.
    pub speed: u32,
}

/// A boost on its way down.
#[derive(Clone, Copy, Debug, PartialEq, Eq, Structural)]
pub struct FallingBoost {
    pub boost: Boost,
    pub position: Vec2i,
}

/// The paddle caught a boost.
#[derive(Clone, Copy, Debug, PartialEq, Eq, Structural)]
pub struct ApplyBoostEvent {
    pub boost: BoostType,
}

impl FallingBoost {
    /// A life boost at its starting point, 200 pixels above the middle.
    pub fn new() -> (r: FallingBoost)
        ensures
            r.boost.kind == BoostType::Life,
            r.boost.speed == BOOST_SPEED,
            r.position.x == 0,
            r.position.y == 200 * UNIT,
    {
        FallingBoost {
            boost: Boost { kind: BoostType::Life, speed: BOOST_SPEED },
            position: Vec2i { x: 0, y: 200 * UNIT },
        }
    }
}

/// The boost after falling for `dt` microseconds.
pub open spec fn fallen(b: FallingBoost, dt: int) -> FallingBoost {
    FallingBoost {
        boost: b.boost,
        position: Vec2i {
            x: b.position.x,
            y: (b.position.y - trunc_div(dt * b.boost.speed, 1_000_000)) as i64,
        },
    }
}

pub open spec fn boost_ok(b: FallingBoost) -> bool {
    -COORD_LIMIT <= b.position.y <= COORD_LIMIT
}

/// Hands the caught boost on, if the index names one, and lets every other
/// boost fall for one tick of `delta_micros` microseconds.
pub fn boost_movement(boosts: &mut Vec<FallingBoost>, caught: Option<usize>, delta_micros: u32) -> (r:
    Option<ApplyBoostEvent>)
    requires
        forall|k: int| 0 <= k < old(boosts)@.len() ==> boost_ok(#[trigger] old(boosts)@[k]),
    ensures
        ({
            let kept = match caught {
                Some(i) => if i < old(boosts)@.len() {
                    old(boosts)@.remove(i as int)
                } else {
                    old(boosts)@
                },
                None => old(boosts)@,
            };
            &&& final(boosts)@ == kept.map_values(|b: FallingBoost| fallen(b, delta_micros as int))
            &&& r == match caught {
                Some(i) => if i < old(boosts)@.len() {
                    Some(ApplyBoostEvent { boost: old(boosts)@[i as int].boost.kind })
                } else {
                    None
                },
                None => None,
            }
        }),
{
    let mut event: Option<ApplyBoostEvent> = None;
    if let Some(i) = caught {
        if i < boosts.len() {
            event = Some(ApplyBoostEvent { boost: boosts[i].boost.kind });
            boosts.remove(i);
        }
    }
    let ghost kept = boosts@;
    let mut k: usize = 0;
    while k < boosts.len()
        invariant
            boosts@.len() == kept.len(),
            0 <= k <= boosts@.len(),
            forall|a: int| 0 <= a < kept.len() ==> boost_ok(#[trigger] kept[a]),
            forall|a: int| 0 <= a < k ==> #[trigger] boosts@[a] == fallen(kept[a], delta_micros as int),
            forall|a: int| k <= a < kept.len() ==> #[trigger] boosts@[a] == kept[a],
        decreases kept.len() - k,
    {
        let b = boosts[k];
        let t = delta_micros as i128;
        let v = b.boost.speed as i128;
        assert(0 <= t * v < 0x1_0000_0000_0000_0000) by (nonlinear_arith)
            requires
                0 <= t < 0x1_0000_0000,
                0 <= v < 0x1_0000_0000,
        ;
        let drop = div_toward_zero(t * v, 1_000_000);
        assert(0 <= drop <= 0x2000_0000_0000) by (nonlinear_arith)
            requires
                drop == (t * v) / 1_000_000,
                0 <= t * v < 0x1_0000_0000_0000_0000,
        ;
        let y = b.position.y - drop as i64;
        boosts.set(k, FallingBoost { boost: b.boost, position: Vec2i { x: b.position.x, y } });
        k += 1;
    }
    assert(boosts@ =~= kept.map_values(|b: FallingBoost| fallen(b, delta_micros as int)));
    event
}

} // verus!
