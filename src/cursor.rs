//! The pointer, in world coordinates.
use vstd::prelude::*;
use crate::ball::Arena;
use crate::geometry::{Vec2i, COORD_LIMIT};

verus! {

/// Moves every follower to the pointer, whose window position (origin at the
/// bottom-left corner) is turned into world coordinates (origin at the center).
/// Without a pointer move nothing changes.
pub fn follow_cursor(followers: &mut Vec<Vec2i>, cursor: Option<Vec2i>, arena: &Arena)
    requires
        arena.wf(),
        match cursor {
            Some(c) => -COORD_LIMIT <= c.x <= COORD_LIMIT && -COORD_LIMIT <= c.y <= COORD_LIMIT,
            None => true,
        },
    ensures
        final(followers)@.len() == old(followers)@.len(),
        match cursor {
            Some(c) => forall|k: int|
                0 <= k < final(followers)@.len() ==> #[trigger] final(followers)@[k] == (Vec2i {
                    x: (c.x - arena.half_width) as i64,
                    y: (c.y - arena.half_height) as i64,
                }),
            None => final(followers)@ == old(followers)@,
        },
{
    if let Some(c) = cursor {
        let world = Vec2i { x: c.x - arena.half_width, y: c.y - arena.half_height };
        let mut k: usize = 0;
        while k < followers.len()
            invariant
                followers@.len() == old(followers)@.len(),
                0 <= k <= followers@.len(),
                forall|a: int| 0 <= a < k ==> #[trigger] followers@[a] == world,
                world.x == c.x - arena.half_width,
                world.y == c.y - arena.half_height,
            decreases followers@.len() - k,
        {
            followers.set(k, world);
            k += 1;
        }
    }
}

} // verus!
