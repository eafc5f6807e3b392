//! The paddle's horizontal movement.
use vstd::prelude::*;
use crate::actions::Actions;
use crate::geometry::{clamp, div_toward_zero, trunc_div, COORD_LIMIT};

verus! {

/// Paddle speed: 500 pixels per second, in units per second.
pub const PADDLE_SPEED: i64 = 500_000;

/// Height of the paddle's center: 200 pixels below the middle of the screen.
pub const PADDLE_ALTITUDE: i64 = -200_000;

/// Where the paddle ends up: at the cursor if it moved, then moved by the
/// player's input, then kept on screen when the screen's width is known.
pub open spec fn paddle_x_after(
    x: int,
    half_width: int,
    cursor_x: Option<i64>,
    movement: Option<i8>,
    delta_micros: int,
    window_half_width: Option<i64>,
) -> int {
    let start = match cursor_x {
        Some(c) => c as int,
        None => x,
    };
    let dir = match movement {
        Some(m) => m as int,
        None => 0,
    };
    let moved = start + trunc_div(dir * PADDLE_SPEED * delta_micros, 1_000_000);
    match window_half_width {
        Some(w) => clamp(moved, -(w - half_width), w - half_width),
        None => moved,
    }
}

/// Moves the paddle for one tick of `delta_micros` microseconds.
pub fn paddle_movement(
    x: &mut i64,
    half_width: i64,
    cursor_x: Option<i64>,
    actions: &Actions,
    delta_micros: u32,
    window_half_width: Option<i64>,
)
    requires
        -COORD_LIMIT <= *old(x) <= COORD_LIMIT,
        0 <= half_width,
        match cursor_x {
            Some(c) => -COORD_LIMIT <= c <= COORD_LIMIT,
            None => true,
        },
        match window_half_width {
            Some(w) => half_width <= w,
            None => true,
        },
    ensures
        *final(x) == paddle_x_after(
            *old(x) as int,
            half_width as int,
            cursor_x,
            actions.player_movement,
            delta_micros as int,
            window_half_width,
        ),
{
    if let Some(c) = cursor_x {
        *x = c;
    }
    let dir: i128 = match actions.player_movement {
        Some(m) => m as i128,
        None => 0,
    };
    let t = delta_micros as i128;
    let ghost d = dir as int;
    assert(-128 * 500_000 * 0x1_0000_0000 <= d * 500_000 * t <= 128 * 500_000 * 0x1_0000_0000)
        by (nonlinear_arith)
        requires
            -128 <= d <= 127,
            0 <= t < 0x1_0000_0000,
    ;
    let step = div_toward_zero(dir * 500_000 * t, 1_000_000);
    assert(-0x100_0000_0000 <= step <= 0x100_0000_0000) by (nonlinear_arith)
        requires
            step == trunc_div(d * 500_000 * t, 1_000_000),
            -128 * 500_000 * 0x1_0000_0000 <= d * 500_000 * t <= 128 * 500_000 * 0x1_0000_0000,
    ;
    let moved = *x + step as i64;
    if let Some(w) = window_half_width {
        let bound = w - half_width;
        *x = if moved < -bound {
            -bound
        } else if moved > bound {
            bound
        } else {
            moved
        };
    } else {
        *x = moved;
    }
}

} // verus!
