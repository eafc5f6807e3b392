//! Fixed-point plane geometry shared by the motion rules.
use vstd::prelude::*;

verus! {

/// One pixel in the fixed-point unit of every coordinate.
pub const UNIT: i64 = 1000;

/// Nominal length of a direction vector.
pub const DIRECTION_ONE: i64 = 1_000_000;

/// The whole of a fraction (a percentage, a time of impact).
pub const FRACTION_ONE: i64 = 1_000_000;

/// Microseconds in one second.
pub const MICROS_PER_SECOND: i64 = 1_000_000;

/// Largest coordinate magnitude the motion rules accept (2^40 units).
pub const COORD_LIMIT: i64 = 1_099_511_627_776;

/// A point of the plane, as mathematical integers.
pub ghost struct Point {
    pub x: int,
    pub y: int,
}

/// A point or a vector in fixed-point units.
#[derive(Clone, Copy, Debug, PartialEq, Eq, Structural)]
pub struct Vec2i {
    pub x: i64,
    pub y: i64,
}

impl View for Vec2i {
    type V = Point;

    open spec fn view(&self) -> Point {
        Point { x: self.x as int, y: self.y as int }
    }
}

impl Vec2i {
    pub fn new(x: i64, y: i64) -> (r: Vec2i)
        ensures
            r.x == x,
            r.y == y,
    {
        Vec2i { x, y }
    }
}

/// An axis-aligned box: its center and its (non-negative) half extents.
#[derive(Clone, Copy, Debug, PartialEq, Eq, Structural)]
pub struct Aabb {
    pub center: Vec2i,
    pub half_extents: Vec2i,
}

pub open spec fn point_within(p: Point, limit: int) -> bool {
    -limit <= p.x <= limit && -limit <= p.y <= limit
}

impl Aabb {
    /// Center within the coordinate limit, half extents non-negative and within it.
    pub open spec fn wf(self) -> bool {
        point_within(self.center@, COORD_LIMIT as int) && 0 <= self.half_extents.x
            <= COORD_LIMIT && 0 <= self.half_extents.y <= COORD_LIMIT
    }
}

pub open spec fn abs(a: int) -> int {
    if a < 0 {
        -a
    } else {
        a
    }
}

/// Sign of `a`: -1, 0 or 1.
pub open spec fn sign(a: int) -> int {
    if a < 0 {
        -1
    } else if a > 0 {
        1
    } else {
        0
    }
}

/// Division rounding toward zero, as integer division of the machine does.
pub open spec fn trunc_div(a: int, d: int) -> int {
    if a >= 0 {
        a / d
    } else {
        -((-a) / d)
    }
}

pub open spec fn clamp(a: int, lo: int, hi: int) -> int {
    if a < lo {
        lo
    } else if a > hi {
        hi
    } else {
        a
    }
}

/// `r` is the integer square root of `n`, rounded down.
pub open spec fn is_floor_sqrt(n: nat, r: nat) -> bool {
    r * r <= n < (r + 1) * (r + 1)
}

/// The largest `r` with `r * r <= n`.
pub open spec fn floor_sqrt(n: nat) -> nat {
    choose|r: nat| is_floor_sqrt(n, r)
}

/// `p` scaled to length `DIRECTION_ONE`, each coordinate rounded toward zero.
pub open spec fn normalized(p: Point) -> Point {
    let len = floor_sqrt((p.x * p.x + p.y * p.y) as nat) as int;
    Point {
        x: trunc_div(p.x * DIRECTION_ONE, len),
        y: trunc_div(p.y * DIRECTION_ONE, len),
    }
}

/// A direction whose coordinates lie within the nominal length.
pub open spec fn direction_ok(d: Point) -> bool {
    point_within(d, DIRECTION_ONE as int)
}

proof fn lemma_floor_sqrt_unique(n: nat, r: nat)
    requires
        r * r <= n < (r + 1) * (r + 1),
    ensures
        floor_sqrt(n) == r,
{
    assert(is_floor_sqrt(n, r));
    let s = floor_sqrt(n);
    assert(s * s <= n < (s + 1) * (s + 1));
    if s < r {
        assert((s + 1) * (s + 1) <= r * r) by (nonlinear_arith)
            requires
                s < r,
        ;
    } else if r < s {
        assert((r + 1) * (r + 1) <= s * s) by (nonlinear_arith)
            requires
                r < s,
        ;
    }
}

/// Integer square root, rounded down.
pub fn isqrt(n: u128) -> (r: u128)
    ensures
        r == floor_sqrt(n as nat),
        r * r <= n < (r + 1) * (r + 1),
        r < 0x1_0000_0000_0000_0000u128,
{
    let mut lo: u128 = 0;
    let mut hi: u128 = 0x1_0000_0000_0000_0000;
    assert(n < hi * hi);
    while hi - lo > 1
        invariant
            lo < hi <= 0x1_0000_0000_0000_0000u128,
            lo * lo <= n,
            n < hi * hi,
        decreases hi - lo,
    {
        let mid = lo + (hi - lo) / 2;
        assert(mid * mid < 0x1_0000_0000_0000_0000_0000_0000_0000_0000int) by (nonlinear_arith)
            requires
                mid < 0x1_0000_0000_0000_0000int,
                mid >= 0,
        ;
        if mid * mid <= n {
            lo = mid;
        } else {
            hi = mid;
        }
    }
    assert(hi == lo + 1);
    proof {
        lemma_floor_sqrt_unique(n as nat, lo as nat);
    }
    lo
}

/// `a / d` rounded toward zero.
pub fn div_toward_zero(a: i128, d: i128) -> (r: i128)
    requires
        d > 0,
        a > i128::MIN,
    ensures
        r == trunc_div(a as int, d as int),
{
    if a >= 0 {
        a / d
    } else {
        -((-a) / d)
    }
}

proof fn lemma_coordinate_at_most_len(a: int, b: int, len: int)
    requires
        len >= 0,
        a * a + b * b < (len + 1) * (len + 1),
    ensures
        abs(a) <= len,
{
    let m = abs(a);
    assert(m * m == a * a) by (nonlinear_arith)
        requires
            m == a || m == -a,
    ;
    assert(b * b >= 0) by (nonlinear_arith);
    if m > len {
        assert((len + 1) * (len + 1) <= m * m) by (nonlinear_arith)
            requires
                m >= len + 1,
                len >= 0,
        ;
    }
}

proof fn lemma_scaled_within(a: int, len: int)
    requires
        len > 0,
        abs(a) <= len,
    ensures
        abs(trunc_div(a * DIRECTION_ONE, len)) <= DIRECTION_ONE,
{
    let k = abs(a);
    let m = k * DIRECTION_ONE;
    assert(m <= len * DIRECTION_ONE) by (nonlinear_arith)
        requires
            0 <= k <= len,
            m == k * 1_000_000,
    ;
    assert(m / len <= DIRECTION_ONE) by (nonlinear_arith)
        requires
            m <= len * DIRECTION_ONE,
            len > 0,
            m >= 0,
    ;
    if a < 0 {
        assert(a * DIRECTION_ONE < 0) by (nonlinear_arith)
            requires
                a < 0,
        ;
        assert(-(a * DIRECTION_ONE) == m);
    } else {
        assert(a * DIRECTION_ONE >= 0) by (nonlinear_arith)
            requires
                a >= 0,
        ;
    }
}

/// A quotient rounded toward zero is no larger than the bound its dividend admits.
pub proof fn lemma_trunc_div_bound(a: int, d: int, k: int)
    requires
        d > 0,
        k >= 0,
        abs(a) <= k * d,
    ensures
        abs(trunc_div(a, d)) <= k,
{
    let m = abs(a);
    assert(m / d <= k) by (nonlinear_arith)
        requires
            0 <= m <= k * d,
            d > 0,
    ;
    assert(m / d >= 0) by (nonlinear_arith)
        requires
            m >= 0,
            d > 0,
    ;
}

/// Scales a nonzero vector to length `DIRECTION_ONE`.
pub fn normalize(v: Vec2i) -> (r: Vec2i)
    requires
        point_within(v@, 0x4000_0000_0000_0000),
        v.x != 0 || v.y != 0,
    ensures
        r@ == normalized(v@),
        direction_ok(r@),
{
    let x = v.x as i128;
    let y = v.y as i128;
    assert(x * x <= 0x1000_0000_0000_0000_0000_0000_0000_0000) by (nonlinear_arith)
        requires
            -0x4000_0000_0000_0000 <= x <= 0x4000_0000_0000_0000,
    ;
    assert(y * y <= 0x1000_0000_0000_0000_0000_0000_0000_0000) by (nonlinear_arith)
        requires
            -0x4000_0000_0000_0000 <= y <= 0x4000_0000_0000_0000,
    ;
    assert(x * x + y * y >= 1) by (nonlinear_arith)
        requires
            x != 0 || y != 0,
    ;
    let n = (x * x + y * y) as u128;
    let len = isqrt(n);
    assert(len >= 1) by (nonlinear_arith)
        requires
            n >= 1,
            n < (len + 1) * (len + 1),
    ;
    proof {
        lemma_coordinate_at_most_len(x as int, y as int, len as int);
        lemma_coordinate_at_most_len(y as int, x as int, len as int);
        lemma_scaled_within(x as int, len as int);
        lemma_scaled_within(y as int, len as int);
    }
    let l = len as i128;
    let rx = div_toward_zero(x * 1_000_000, l);
    let ry = div_toward_zero(y * 1_000_000, l);
    Vec2i { x: rx as i64, y: ry as i64 }
}

} // verus!
