//! The ball: its behaviour state and the per-tick motion resolver.
use vstd::prelude::*;
use crate::actions::InputEvent;
use crate::geometry::{
    abs, clamp, div_toward_zero, direction_ok, lemma_trunc_div_bound,
    normalize, normalized, point_within, sign, trunc_div, Aabb, Point, Vec2i, COORD_LIMIT,
    DIRECTION_ONE, FRACTION_ONE, MICROS_PER_SECOND, UNIT,
};

verus! {

/// Speed of a new ball: 300 pixels per second, in units per second.
pub const DEFAULT_BALL_SPEED: u32 = 300_000;

/// Bound on every position the resolver computes within one tick (2^47 units).
pub const MOTION_LIMIT: i64 = 0x8000_0000_0000;

/// Bound on the distance a ball covers in one tick (2^45 units).
pub const MOVE_LIMIT: i64 = 0x2000_0000_0000;

/// How the ball behaves.
#[derive(Clone, Copy, Debug, PartialEq, Eq, Structural)]
pub enum BallState {
    /// Riding on the paddle. `percentage`, out of `FRACTION_ONE`, runs from the
    /// paddle's left edge (0) to its right edge.
    Glued { percentage: u32 },
    /// Moving on its own.
    Free,
}

#[derive(Clone, Copy, Debug, PartialEq, Eq, Structural)]
pub struct Ball {
    /// Heading, of nominal length `DIRECTION_ONE`.
    pub direction: Vec2i,
    /// Units per second.
    pub speed: u32,
    pub state: BallState,
}

/// A block was touched by the ball; the payload names the block.
#[derive(Clone, Copy, Debug, PartialEq, Eq, Structural)]
pub struct BlockHitEvent(pub usize);

/// The ball has to be put back on the paddle.
#[derive(Clone, Copy, Debug, PartialEq, Eq, Structural)]
pub struct BallResetEvent;

/// What a shape cast along the tick's move vector found first.
#[derive(Clone, Copy, Debug, PartialEq, Eq, Structural)]
pub struct ShapeHit {
    /// The entity that was hit.
    pub entity: usize,
    /// Time of impact, out of `FRACTION_ONE` of the move vector.
    pub toi: u32,
    /// Geometry of the entity that was hit.
    pub body: Aabb,
}

impl ShapeHit {
    pub open spec fn wf(self) -> bool {
        self.toi <= FRACTION_ONE && self.body.wf()
    }
}

/// The playing field, centered on the origin.
#[derive(Clone, Copy, Debug, PartialEq, Eq, Structural)]
pub struct Arena {
    pub half_width: i64,
    pub half_height: i64,
}

impl Arena {
    pub open spec fn wf(self) -> bool {
        0 <= self.half_width <= COORD_LIMIT && 0 <= self.half_height <= COORD_LIMIT
    }
}

/// What one tick of motion signals to the rest of the game.
#[derive(Clone, Copy, Debug, PartialEq, Eq, Structural)]
pub struct MovementEvents {
    /// The paddle was touched: the bounce cue plays.
    pub paddle_bounce: bool,
    pub block_hit: Option<BlockHitEvent>,
}

/// Position and heading of a ball in the middle of a tick.
pub ghost struct Motion {
    pub position: Point,
    pub direction: Point,
}

pub open spec fn motion_of(position: Vec2i, direction: Vec2i) -> Motion {
    Motion { position: position@, direction: direction@ }
}

impl Ball {
    pub open spec fn wf(self) -> bool {
        &&& direction_ok(self.direction@)
        &&& match self.state {
            BallState::Glued { percentage } => percentage <= FRACTION_ONE,
            BallState::Free => true,
        }
    }
}

/// A ball as it is put on the paddle: heading up, default speed, glued to the middle.
pub open spec fn resting_ball() -> Ball {
    Ball {
        direction: Vec2i { x: 0, y: DIRECTION_ONE },
        speed: DEFAULT_BALL_SPEED,
        state: BallState::Glued { percentage: 500_000 },
    }
}

impl Default for Ball {
    fn default() -> (r: Ball)
        ensures
            r == resting_ball(),
            r.wf(),
    {
        Ball {
            direction: Vec2i { x: 0, y: DIRECTION_ONE },
            speed: DEFAULT_BALL_SPEED,
            state: BallState::Glued { percentage: 500_000 },
        }
    }
}

/// Distance covered in `dt` microseconds: `direction * speed * dt`, rounded toward zero.
pub open spec fn move_vector_of(direction: Point, speed: int, dt: int) -> Point {
    Point {
        x: trunc_div(direction.x * speed * dt, DIRECTION_ONE * MICROS_PER_SECOND),
        y: trunc_div(direction.y * speed * dt, DIRECTION_ONE * MICROS_PER_SECOND),
    }
}

pub open spec fn translated(p: Point, v: Point) -> Point {
    Point { x: p.x + v.x, y: p.y + v.y }
}

/// Where the ball touches: `origin + move * toi`.
pub open spec fn contact_point(origin: Point, mv: Point, toi: int) -> Point {
    Point {
        x: origin.x + trunc_div(mv.x * toi, FRACTION_ONE as int),
        y: origin.y + trunc_div(mv.y * toi, FRACTION_ONE as int),
    }
}

/// Position of a glued ball: over the paddle's center, shifted by `percentage`
/// across its width, resting on its top edge.
pub open spec fn glued_position_of(paddle: Aabb, percentage: int, radius: int) -> Point {
    Point {
        x: paddle.center.x + trunc_div(
            paddle.half_extents.x * (2 * percentage - FRACTION_ONE),
            FRACTION_ONE as int,
        ),
        y: paddle.center.y + paddle.half_extents.y + radius,
    }
}

/// Top and side walls: a crossing edge reflects its axis of the direction and
/// puts the position back inside.
pub open spec fn walls_resolved(m: Motion, radius: int, arena: Arena) -> Motion {
    let top = arena.half_height - radius;
    let m1 = if m.position.y + radius > arena.half_height {
        Motion {
            position: Point { x: m.position.x, y: top },
            direction: Point { x: m.direction.x, y: -m.direction.y },
        }
    } else {
        m
    };
    let edge = arena.half_width - radius;
    if abs(m1.position.x) > edge {
        Motion {
            position: Point { x: clamp(m1.position.x, -edge, edge), y: m1.position.y },
            direction: Point { x: -m1.direction.x, y: m1.direction.y },
        }
    } else {
        m1
    }
}

/// A paddle touched from above sends the ball off at an angle set by where it
/// touched, `normalize((x - center) / half_width / 2, 1)`, and puts it on top of
/// the paddle with one pixel to spare.
pub open spec fn paddle_resolved(
    origin: Point,
    mv: Point,
    m: Motion,
    radius: int,
    hit: Option<ShapeHit>,
) -> Motion {
    match hit {
        None => m,
        Some(h) => {
            let cp = contact_point(origin, mv, h.toi as int);
            let c = h.body.center@;
            let e = h.body.half_extents@;
            if cp.y >= c.y + e.y {
                Motion {
                    position: Point { x: cp.x, y: c.y + e.y + radius + UNIT },
                    direction: normalized(Point { x: cp.x - c.x, y: 2 * e.x }),
                }
            } else {
                m
            }
        },
    }
}

/// A block touched beyond its top or bottom edge reflects the vertical axis; one
/// touched beyond a side edge reflects the horizontal axis; either way the ball
/// is put one pixel off the contact point along the new direction. A touch
/// inside both ranges (a corner) changes nothing.
pub open spec fn block_resolved(origin: Point, mv: Point, m: Motion, hit: Option<ShapeHit>) -> Motion {
    match hit {
        None => m,
        Some(h) => {
            let cp = contact_point(origin, mv, h.toi as int);
            let c = h.body.center@;
            let e = h.body.half_extents@;
            let d = m.direction;
            if cp.y <= c.y - e.y || cp.y >= c.y + e.y {
                Motion {
                    position: Point { x: cp.x, y: cp.y + sign(-d.y) * UNIT },
                    direction: Point { x: d.x, y: -d.y },
                }
            } else if cp.x <= c.x - e.x || cp.x >= c.x + e.x {
                Motion {
                    position: Point { x: cp.x + sign(-d.x) * UNIT, y: cp.y },
                    direction: Point { x: -d.x, y: d.y },
                }
            } else {
                m
            }
        },
    }
}

/// One tick of a free ball: move, then walls, then the paddle, then a block.
pub open spec fn free_motion(
    origin: Point,
    direction: Point,
    speed: int,
    dt: int,
    radius: int,
    arena: Arena,
    paddle_hit: Option<ShapeHit>,
    block_hit: Option<ShapeHit>,
) -> Motion {
    let mv = move_vector_of(direction, speed, dt);
    let m0 = Motion { position: translated(origin, mv), direction };
    let m1 = walls_resolved(m0, radius, arena);
    let m2 = paddle_resolved(origin, mv, m1, radius, paddle_hit);
    block_resolved(origin, mv, m2, block_hit)
}

/// Distance covered in `delta_micros` microseconds at `speed` along `direction`.
pub fn move_vector(direction: Vec2i, speed: u32, delta_micros: u32) -> (r: Vec2i)
    requires
        direction_ok(direction@),
    ensures
        r@ == move_vector_of(direction@, speed as int, delta_micros as int),
        point_within(r@, MOVE_LIMIT as int),
{
    let scale: i128 = 1_000_000_000_000;
    let s = speed as i128;
    let t = delta_micros as i128;
    let k: i128 = 0x1_0000_0000_0000_0000;
    assert(s * t < k) by (nonlinear_arith)
        requires
            0 <= s < 0x1_0000_0000,
            0 <= t < 0x1_0000_0000,
            k == 0x1_0000_0000_0000_0000int,
    ;
    assert(s * t >= 0) by (nonlinear_arith)
        requires
            0 <= s,
            0 <= t,
    ;
    let st = s * t;
    proof {
        let dx = direction.x as int;
        let dy = direction.y as int;
        assert(abs(dx * st) <= MOVE_LIMIT * scale) by (nonlinear_arith)
            requires
                -1_000_000 <= dx <= 1_000_000,
                0 <= st < 0x1_0000_0000_0000_0000int,
                MOVE_LIMIT == 0x2000_0000_0000int,
                scale == 1_000_000_000_000int,
        ;
        assert(abs(dy * st) <= MOVE_LIMIT * scale) by (nonlinear_arith)
            requires
                -1_000_000 <= dy <= 1_000_000,
                0 <= st < 0x1_0000_0000_0000_0000int,
                MOVE_LIMIT == 0x2000_0000_0000int,
                scale == 1_000_000_000_000int,
        ;
        lemma_trunc_div_bound(dx * st, scale as int, MOVE_LIMIT as int);
        lemma_trunc_div_bound(dy * st, scale as int, MOVE_LIMIT as int);
        assert(dx * speed * delta_micros == dx * st) by (nonlinear_arith)
            requires
                st == speed * delta_micros,
        ;
        assert(dy * speed * delta_micros == dy * st) by (nonlinear_arith)
            requires
                st == speed * delta_micros,
        ;
    }
    let ax = direction.x as i128 * st;
    let ay = direction.y as i128 * st;
    let x = div_toward_zero(ax, scale);
    let y = div_toward_zero(ay, scale);
    Vec2i { x: x as i64, y: y as i64 }
}

/// The event a block cast produces.
pub open spec fn hit_event(hit: Option<ShapeHit>) -> Option<BlockHitEvent> {
    match hit {
        Some(h) => Some(BlockHitEvent(h.entity)),
        None => None,
    }
}

/// A paddle hit that the resolver can steer from: it lies within its bounds
/// and the paddle has width.
pub open spec fn paddle_hit_ok(hit: Option<ShapeHit>) -> bool {
    match hit {
        Some(h) => h.wf() && h.body.half_extents.x > 0,
        None => true,
    }
}

pub open spec fn block_hit_ok(hit: Option<ShapeHit>) -> bool {
    match hit {
        Some(h) => h.wf(),
        None => true,
    }
}

/// Where a glued ball sits on the paddle.
pub fn glued_position(paddle: &Aabb, percentage: u32, radius: i64) -> (r: Vec2i)
    requires
        paddle.wf(),
        percentage <= FRACTION_ONE,
        0 <= radius <= COORD_LIMIT,
    ensures
        r@ == glued_position_of(*paddle, percentage as int, radius as int),
        point_within(r@, MOTION_LIMIT as int),
{
    let hx = paddle.half_extents.x as i128;
    let p = percentage as i128;
    let f = 2 * p - 1_000_000;
    proof {
        assert(abs(hx * f) <= COORD_LIMIT * FRACTION_ONE) by (nonlinear_arith)
            requires
                0 <= hx <= COORD_LIMIT,
                -1_000_000 <= f <= 1_000_000,
                FRACTION_ONE == 1_000_000,
        ;
        lemma_trunc_div_bound(hx * f, FRACTION_ONE as int, COORD_LIMIT as int);
    }
    let offset = div_toward_zero(hx * f, 1_000_000);
    Vec2i {
        x: paddle.center.x + offset as i64,
        y: paddle.center.y + paddle.half_extents.y + radius,
    }
}

/// Reflects off the top and side walls.
pub fn resolve_walls(position: Vec2i, direction: Vec2i, radius: i64, arena: &Arena) -> (r: (
    Vec2i,
    Vec2i,
))
    requires
        point_within(position@, MOTION_LIMIT as int),
        direction_ok(direction@),
        arena.wf(),
        0 <= radius <= arena.half_width,
    ensures
        motion_of(r.0, r.1) == walls_resolved(motion_of(position, direction), radius as int, *arena),
        point_within(r.0@, MOTION_LIMIT as int),
        direction_ok(r.1@),
{
    let mut p = position;
    let mut d = direction;
    if p.y + radius > arena.half_height {
        d.y = -d.y;
        p.y = arena.half_height - radius;
    }
    let edge = arena.half_width - radius;
    let ax = if p.x < 0 {
        -p.x
    } else {
        p.x
    };
    if ax > edge {
        p.x = if p.x < -edge {
            -edge
        } else if p.x > edge {
            edge
        } else {
            p.x
        };
        d.x = -d.x;
    }
    (p, d)
}

/// `origin + mv * toi`, the point where a cast touched.
fn contact(origin: Vec2i, mv: Vec2i, toi: u32) -> (r: Vec2i)
    requires
        point_within(origin@, COORD_LIMIT as int),
        point_within(mv@, MOVE_LIMIT as int),
        toi <= FRACTION_ONE,
    ensures
        r@ == contact_point(origin@, mv@, toi as int),
        point_within(r@, COORD_LIMIT + MOVE_LIMIT),
{
    let t = toi as i128;
    let mx = mv.x as i128;
    let my = mv.y as i128;
    proof {
        assert(abs(mx * t) <= MOVE_LIMIT * FRACTION_ONE) by (nonlinear_arith)
            requires
                -MOVE_LIMIT <= mx <= MOVE_LIMIT,
                0 <= t <= FRACTION_ONE,
        ;
        assert(abs(my * t) <= MOVE_LIMIT * FRACTION_ONE) by (nonlinear_arith)
            requires
                -MOVE_LIMIT <= my <= MOVE_LIMIT,
                0 <= t <= FRACTION_ONE,
        ;
        lemma_trunc_div_bound(mx * t, FRACTION_ONE as int, MOVE_LIMIT as int);
        lemma_trunc_div_bound(my * t, FRACTION_ONE as int, MOVE_LIMIT as int);
    }
    let dx = div_toward_zero(mx * t, 1_000_000);
    let dy = div_toward_zero(my * t, 1_000_000);
    Vec2i { x: origin.x + dx as i64, y: origin.y + dy as i64 }
}

/// Bounces off the paddle that a cast from `origin` along `mv` found.
pub fn resolve_paddle_hit(
    origin: Vec2i,
    mv: Vec2i,
    position: Vec2i,
    direction: Vec2i,
    radius: i64,
    hit: Option<ShapeHit>,
) -> (r: (Vec2i, Vec2i))
    requires
        point_within(origin@, COORD_LIMIT as int),
        point_within(mv@, MOVE_LIMIT as int),
        point_within(position@, MOTION_LIMIT as int),
        direction_ok(direction@),
        0 <= radius <= COORD_LIMIT,
        paddle_hit_ok(hit),
    ensures
        motion_of(r.0, r.1) == paddle_resolved(
            origin@,
            mv@,
            motion_of(position, direction),
            radius as int,
            hit,
        ),
        point_within(r.0@, MOTION_LIMIT as int),
        direction_ok(r.1@),
{
    match hit {
        None => (position, direction),
        Some(h) => {
            let cp = contact(origin, mv, h.toi);
            let c = h.body.center;
            let e = h.body.half_extents;
            if cp.y >= c.y + e.y {
                let steer = Vec2i { x: cp.x - c.x, y: 2 * e.x };
                let d = normalize(steer);
                (Vec2i { x: cp.x, y: c.y + e.y + radius + UNIT }, d)
            } else {
                (position, direction)
            }
        },
    }
}

/// `UNIT` signed like `a`.
fn unit_toward(a: i64) -> (r: i64)
    ensures
        r == sign(a as int) * UNIT,
{
    if a < 0 {
        -UNIT
    } else if a > 0 {
        UNIT
    } else {
        0
    }
}

/// Bounces off the block that a cast from `origin` along `mv` found.
pub fn resolve_block_hit(
    origin: Vec2i,
    mv: Vec2i,
    position: Vec2i,
    direction: Vec2i,
    hit: Option<ShapeHit>,
) -> (r: (Vec2i, Vec2i))
    requires
        point_within(origin@, COORD_LIMIT as int),
        point_within(mv@, MOVE_LIMIT as int),
        point_within(position@, MOTION_LIMIT as int),
        direction_ok(direction@),
        block_hit_ok(hit),
    ensures
        motion_of(r.0, r.1) == block_resolved(origin@, mv@, motion_of(position, direction), hit),
        point_within(r.0@, MOTION_LIMIT as int),
        direction_ok(r.1@),
{
    match hit {
        None => (position, direction),
        Some(h) => {
            let cp = contact(origin, mv, h.toi);
            let c = h.body.center;
            let e = h.body.half_extents;
            if cp.y <= c.y - e.y || cp.y >= c.y + e.y {
                let d = Vec2i { x: direction.x, y: -direction.y };
                (Vec2i { x: cp.x, y: cp.y + unit_toward(d.y) }, d)
            } else if cp.x <= c.x - e.x || cp.x >= c.x + e.x {
                let d = Vec2i { x: -direction.x, y: direction.y };
                (Vec2i { x: cp.x + unit_toward(d.x), y: cp.y }, d)
            } else {
                (position, direction)
            }
        },
    }
}

/// Advances the ball by one tick of `delta_micros` microseconds.
///
/// A glued ball is put on the paddle. A free ball moves along its direction,
/// reflects off the top and side walls, bounces off the paddle that
/// `paddle_hit` reports and off the block that `block_hit` reports; both casts
/// are made from the old position along the tick's move vector.
pub fn ball_movement(
    ball: &mut Ball,
    position: &mut Vec2i,
    radius: i64,
    paddle: &Aabb,
    arena: &Arena,
    delta_micros: u32,
    paddle_hit: Option<ShapeHit>,
    block_hit: Option<ShapeHit>,
) -> (r: MovementEvents)
    requires
        old(ball).wf(),
        point_within(old(position)@, COORD_LIMIT as int),
        arena.wf(),
        0 <= radius <= arena.half_width,
        paddle.wf(),
        paddle_hit_ok(paddle_hit),
        block_hit_ok(block_hit),
    ensures
        final(ball).wf(),
        final(ball).speed == old(ball).speed,
        final(ball).state == old(ball).state,
        point_within(final(position)@, MOTION_LIMIT as int),
        match old(ball).state {
            BallState::Glued { percentage } => {
                &&& final(position)@ == glued_position_of(*paddle, percentage as int, radius as int)
                &&& final(ball).direction == old(ball).direction
                &&& !r.paddle_bounce
                &&& r.block_hit.is_none()
            },
            BallState::Free => {
                &&& motion_of(*final(position), final(ball).direction) == free_motion(
                    old(position)@,
                    old(ball).direction@,
                    old(ball).speed as int,
                    delta_micros as int,
                    radius as int,
                    *arena,
                    paddle_hit,
                    block_hit,
                )
                &&& r.paddle_bounce == paddle_hit.is_some()
                &&& r.block_hit == hit_event(block_hit)
            },
        },
{
    match ball.state {
        BallState::Glued { percentage } => {
            *position = glued_position(paddle, percentage, radius);
            MovementEvents { paddle_bounce: false, block_hit: None }
        },
        BallState::Free => {
            let origin = *position;
            let mv = move_vector(ball.direction, ball.speed, delta_micros);
            let destination = Vec2i { x: origin.x + mv.x, y: origin.y + mv.y };
            let (p1, d1) = resolve_walls(destination, ball.direction, radius, arena);
            let (p2, d2) = resolve_paddle_hit(origin, mv, p1, d1, radius, paddle_hit);
            let (p3, d3) = resolve_block_hit(origin, mv, p2, d2, block_hit);
            ball.direction = d3;
            *position = p3;
            let block_event = match block_hit {
                Some(h) => Some(BlockHitEvent(h.entity)),
                None => None,
            };
            MovementEvents { paddle_bounce: paddle_hit.is_some(), block_hit: block_event }
        },
    }
}

/// Some event of `events` is the primary action.
pub open spec fn has_primary_action(events: Seq<InputEvent>) -> bool {
    exists|i: int| 0 <= i < events.len() && #[trigger] events[i] == InputEvent::PrimaryAction
}

/// The state after a frame's input: the primary action frees the ball, and
/// nothing else changes it.
pub open spec fn launched(state: BallState, events: Seq<InputEvent>) -> BallState {
    if has_primary_action(events) {
        BallState::Free
    } else {
        state
    }
}

/// Launches the ball on the primary action.
pub fn ball_control(ball: &mut Ball, input_events: &Vec<InputEvent>)
    ensures
        final(ball).state == launched(old(ball).state, input_events@),
        final(ball).direction == old(ball).direction,
        final(ball).speed == old(ball).speed,
        old(ball).wf() ==> final(ball).wf(),
{
    let mut i: usize = 0;
    while i < input_events.len()
        invariant
            0 <= i <= input_events.len(),
            ball.state == launched(old(ball).state, input_events@.subrange(0, i as int)),
            ball.direction == old(ball).direction,
            ball.speed == old(ball).speed,
        decreases input_events.len() - i,
    {
        let ghost prefix = input_events@.subrange(0, i as int);
        let ghost next = input_events@.subrange(0, i + 1);
        if input_events[i] == InputEvent::PrimaryAction {
            ball.state = BallState::Free;
            assert(next[i as int] == InputEvent::PrimaryAction);
        } else {
            assert forall|j: int| 0 <= j < next.len() implies (#[trigger] next[j]
                == InputEvent::PrimaryAction) == (j < i && prefix[j] == InputEvent::PrimaryAction) by {
                if j < i {
                    assert(next[j] == prefix[j]);
                }
            }
        }
        i += 1;
    }
    assert(input_events@.subrange(0, input_events.len() as int) =~= input_events@);
}

/// Where a new ball is spawned before it settles on the paddle.
pub open spec fn spawn_point() -> Point {
    Point { x: 0, y: 999 * UNIT }
}

/// Puts a fresh ball on the paddle when a reset was asked for.
pub fn ball_reset(ball: &mut Ball, position: &mut Vec2i, reset_events: &Vec<BallResetEvent>)
    ensures
        reset_events.len() > 0 ==> *final(ball) == resting_ball() && final(position)@
            == spawn_point(),
        reset_events.len() == 0 ==> *final(ball) == *old(ball) && *final(position) == *old(
            position,
        ),
{
    let mut i: usize = 0;
    while i < reset_events.len()
        invariant
            0 <= i <= reset_events.len(),
            i > 0 ==> *ball == resting_ball() && position@ == spawn_point(),
            i == 0 ==> *ball == *old(ball) && *position == *old(position),
        decreases reset_events.len() - i,
    {
        *ball = Ball::default();
        *position = Vec2i { x: 0, y: 999 * UNIT };
        i += 1;
    }
}

/// A free ball that meets no wall, paddle or block moves by exactly
/// `direction * speed * dt` (each coordinate rounded toward zero) and keeps
/// its direction.
pub proof fn lemma_unobstructed_motion_is_linear(
    origin: Point,
    direction: Point,
    speed: int,
    dt: int,
    radius: int,
    arena: Arena,
)
    requires
        translated(origin, move_vector_of(direction, speed, dt)).y + radius <= arena.half_height,
        abs(translated(origin, move_vector_of(direction, speed, dt)).x) <= arena.half_width
            - radius,
    ensures
        free_motion(origin, direction, speed, dt, radius, arena, None, None) == (Motion {
            position: translated(origin, move_vector_of(direction, speed, dt)),
            direction,
        }),
{
}

/// Wall resolution leaves the ball inside the walls, and resolving again
/// without moving reflects nothing: a wall never reflects the same ball twice
/// in a row. Only an axis that crossed its wall is reflected.
pub proof fn lemma_walls_settle(m: Motion, radius: int, arena: Arena)
    requires
        0 <= radius <= arena.half_width,
    ensures
        walls_resolved(m, radius, arena).position.y + radius <= arena.half_height,
        abs(walls_resolved(m, radius, arena).position.x) <= arena.half_width - radius,
        walls_resolved(walls_resolved(m, radius, arena), radius, arena) == walls_resolved(
            m,
            radius,
            arena,
        ),
        walls_resolved(m, radius, arena).direction.y == if m.position.y + radius
            > arena.half_height {
            -m.direction.y
        } else {
            m.direction.y
        },
{
}

/// A free ball stays free whatever input comes; a glued ball is freed by a
/// primary action and by nothing else; a second frame with the same input
/// changes nothing more.
pub proof fn lemma_launch_is_one_way(state: BallState, events: Seq<InputEvent>)
    ensures
        launched(BallState::Free, events) == BallState::Free,
        (launched(state, events) == BallState::Free) <==> (state == BallState::Free
            || has_primary_action(events)),
        launched(launched(state, events), events) == launched(state, events),
{
}

} // verus!
