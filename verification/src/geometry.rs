//! Plane geometry of the collision core: integer 2D vectors, axis-aligned
//! boxes, circle-vs-box intersection, struck-side classification, and the
//! directional reflection of a velocity.

use vstd::prelude::*;

verus! {

/// Bound on the coordinates the collision test accepts; it keeps every
/// intermediate product of the squared-distance test inside `i64`.
pub const COORD_LIMIT: i64 = 500_000_000;

/// A 2D vector (or point) in milliunits.
#[derive(Clone, Copy, PartialEq, Eq, Structural, Debug)]
pub struct Vec2 {
    pub x: i64,
    pub y: i64,
}

/// A circle given by its center and radius.
#[derive(Clone, Copy, PartialEq, Eq, Structural, Debug)]
pub struct Circle {
    pub center: Vec2,
    pub radius: i64,
}

/// An axis-aligned box given by its center and half-size.
#[derive(Clone, Copy, PartialEq, Eq, Structural, Debug)]
pub struct Aabb {
    pub center: Vec2,
    pub half: Vec2,
}

/// The side of a collider's box struck by the ball.
#[derive(Clone, Copy, PartialEq, Eq, Structural, Debug)]
pub enum Collision {
    Left,
    Right,
    Top,
    Bottom,
}

pub open spec fn coord_in_range(v: int) -> bool {
    -(COORD_LIMIT as int) <= v <= COORD_LIMIT as int
}

pub open spec fn abs_spec(v: int) -> int {
    if v < 0 {
        -v
    } else {
        v
    }
}

pub open spec fn clamp_spec(v: int, lo: int, hi: int) -> int {
    if v < lo {
        lo
    } else if v > hi {
        hi
    } else {
        v
    }
}

impl Vec2 {
    pub open spec fn in_range(self) -> bool {
        coord_in_range(self.x as int) && coord_in_range(self.y as int)
    }
}

impl Aabb {
    /// A box is well formed when its half-size is non-negative.
    pub open spec fn wf(self) -> bool {
        self.half.x >= 0 && self.half.y >= 0
    }

    pub open spec fn in_range(self) -> bool {
        self.center.in_range() && self.half.in_range()
    }

    pub open spec fn min_x(self) -> int {
        self.center.x - self.half.x
    }

    pub open spec fn max_x(self) -> int {
        self.center.x + self.half.x
    }

    pub open spec fn min_y(self) -> int {
        self.center.y - self.half.y
    }

    pub open spec fn max_y(self) -> int {
        self.center.y + self.half.y
    }
}

impl Circle {
    pub open spec fn wf(self) -> bool {
        self.radius >= 0
    }

    pub open spec fn in_range(self) -> bool {
        self.center.in_range() && coord_in_range(self.radius as int)
    }
}

/// x coordinate of the point of `b` closest to a point at x coordinate `px`.
pub open spec fn closest_x(b: Aabb, px: int) -> int {
    clamp_spec(px, b.min_x(), b.max_x())
}

/// y coordinate of the point of `b` closest to a point at y coordinate `py`.
pub open spec fn closest_y(b: Aabb, py: int) -> int {
    clamp_spec(py, b.min_y(), b.max_y())
}

/// Squared distance from point `p` to the closest point of box `b`.
pub open spec fn dist_sq(b: Aabb, p: Vec2) -> int {
    let ox = p.x - closest_x(b, p.x as int);
    let oy = p.y - closest_y(b, p.y as int);
    ox * ox + oy * oy
}

/// A circle and a box intersect when the distance from the circle's center to
/// the box's closest point is at most the circle's radius.
pub open spec fn intersects_spec(c: Circle, b: Aabb) -> bool {
    dist_sq(b, c.center) <= c.radius * c.radius
}

/// Dominant-axis side classification of the offset from the box's closest
/// point to the ball's center. The horizontal branch needs a strict
/// inequality, so ties in magnitude resolve to Top or Bottom.
pub open spec fn classify_spec(ox: int, oy: int) -> Collision {
    if abs_spec(ox) > abs_spec(oy) {
        if ox > 0 {
            Collision::Right
        } else {
            Collision::Left
        }
    } else if oy > 0 {
        Collision::Top
    } else {
        Collision::Bottom
    }
}

/// The struck side of `b` for the ball circle `c`, or `None` when the two do
/// not intersect.
pub open spec fn collide_with_side_spec(c: Circle, b: Aabb) -> Option<Collision> {
    if intersects_spec(c, b) {
        Some(
            classify_spec(
                c.center.x - closest_x(b, c.center.x as int),
                c.center.y - closest_y(b, c.center.y as int),
            ),
        )
    } else {
        None
    }
}

/// A velocity reflected off `side`, as a pair of mathematical integers.
/// The flip is directional: a component changes sign only when it points
/// into the struck surface, so a ball already moving away is left alone.
pub open spec fn reflect_spec(vx: int, vy: int, side: Collision) -> (int, int) {
    match side {
        Collision::Top => if vy < 0 {
            (vx, -vy)
        } else {
            (vx, vy)
        },
        Collision::Bottom => if vy > 0 {
            (vx, -vy)
        } else {
            (vx, vy)
        },
        Collision::Left => if vx > 0 {
            (-vx, vy)
        } else {
            (vx, vy)
        },
        Collision::Right => if vx < 0 {
            (-vx, vy)
        } else {
            (vx, vy)
        },
    }
}

/// Squared magnitude of a velocity.
pub open spec fn speed_sq(vx: int, vy: int) -> int {
    vx * vx + vy * vy
}

/// Reflection off any single side conserves the velocity's squared
/// magnitude: components only ever change sign.
pub proof fn lemma_reflect_conserves_speed(vx: int, vy: int, side: Collision)
    ensures
        speed_sq(reflect_spec(vx, vy, side).0, reflect_spec(vx, vy, side).1) == speed_sq(vx, vy),
{
    assert((-vx) * (-vx) == vx * vx) by (nonlinear_arith);
    assert((-vy) * (-vy) == vy * vy) by (nonlinear_arith);
}

/// Two velocities whose components agree in magnitude have the same speed.
pub proof fn lemma_equal_magnitudes_equal_speed(ax: int, ay: int, bx: int, by: int)
    requires
        abs_spec(ax) == abs_spec(bx),
        abs_spec(ay) == abs_spec(by),
    ensures
        speed_sq(ax, ay) == speed_sq(bx, by),
{
    assert((-ax) * (-ax) == ax * ax) by (nonlinear_arith);
    assert((-ay) * (-ay) == ay * ay) by (nonlinear_arith);
}

pub proof fn lemma_square_le(a: int, b: int)
    by (nonlinear_arith)
    requires
        -b <= a <= b,
    ensures
        0 <= a * a <= b * b,
{
}

/// Clamp `v` into `[lo, hi]`.
pub fn clamp_i64(v: i64, lo: i64, hi: i64) -> (r: i64)
    requires
        lo <= hi,
    ensures
        r == clamp_spec(v as int, lo as int, hi as int),
        lo <= r <= hi,
{
    if v < lo {
        lo
    } else if v > hi {
        hi
    } else {
        v
    }
}

/// Absolute value.
pub fn abs_i64(v: i64) -> (r: i64)
    requires
        v > i64::MIN,
    ensures
        r == abs_spec(v as int),
{
    if v < 0 {
        -v
    } else {
        v
    }
}

/// Test the ball circle against a collider box and classify the struck side.
///
/// Returns `None` when the shapes do not intersect; otherwise the side of the
/// box whose face is nearest the ball's center, with magnitude ties resolved
/// to the vertical branch.
pub fn collide_with_side(ball: Circle, wall: Aabb) -> (r: Option<Collision>)
    requires
        ball.wf(),
        wall.wf(),
        ball.in_range(),
        wall.in_range(),
    ensures
        r == collide_with_side_spec(ball, wall),
        r is Some <==> intersects_spec(ball, wall),
{
    let min_x = wall.center.x - wall.half.x;
    let max_x = wall.center.x + wall.half.x;
    let min_y = wall.center.y - wall.half.y;
    let max_y = wall.center.y + wall.half.y;
    let cx = clamp_i64(ball.center.x, min_x, max_x);
    let cy = clamp_i64(ball.center.y, min_y, max_y);
    let ox = ball.center.x - cx;
    let oy = ball.center.y - cy;
    proof {
        lemma_square_le(ox as int, 3 * COORD_LIMIT as int);
        lemma_square_le(oy as int, 3 * COORD_LIMIT as int);
        lemma_square_le(ball.radius as int, COORD_LIMIT as int);
    }
    let d2 = ox * ox + oy * oy;
    let r2 = ball.radius * ball.radius;
    if d2 > r2 {
        return None;
    }
    let side = if abs_i64(ox) > abs_i64(oy) {
        if ox > 0 {
            Collision::Right
        } else {
            Collision::Left
        }
    } else if oy > 0 {
        Collision::Top
    } else {
        Collision::Bottom
    };
    Some(side)
}

/// Reflect velocity `v` off `side`, flipping a component only when it points
/// into the struck surface.
pub fn reflect(v: Vec2, side: Collision) -> (r: Vec2)
    requires
        v.x > i64::MIN,
        v.y > i64::MIN,
    ensures
        (r.x as int, r.y as int) == reflect_spec(v.x as int, v.y as int, side),
        abs_spec(r.x as int) == abs_spec(v.x as int),
        abs_spec(r.y as int) == abs_spec(v.y as int),
{
    match side {
        Collision::Top => if v.y < 0 {
            Vec2 { x: v.x, y: -v.y }
        } else {
            v
        },
        Collision::Bottom => if v.y > 0 {
            Vec2 { x: v.x, y: -v.y }
        } else {
            v
        },
        Collision::Left => if v.x > 0 {
            Vec2 { x: -v.x, y: v.y }
        } else {
            v
        },
        Collision::Right => if v.x < 0 {
            Vec2 { x: -v.x, y: v.y }
        } else {
            v
        },
    }
}

} // verus!
