//! Configuration constants of the simulation, and the placement of the four
//! arena walls.
//!
//! Lengths are in milliunits (one thousandth of a world unit), velocities in
//! milliunits per millisecond (numerically, world units per second).

use vstd::prelude::*;

use crate::geometry::Vec2;

verus! {

/// One world unit, in milliunits. Lengths below are unit values scaled by this.
pub const UNIT: i64 = 1_000;

// Arena: a 1200 x 800 unit rectangle centered at the origin.
pub const ARENA_W: i64 = 1_200_000;
pub const ARENA_H: i64 = 800_000;

/// Thickness of each wall (10 units).
pub const WALL_THICKNESS: i64 = 10_000;

/// Side walls span the arena height plus one thickness, and the top and
/// bottom walls the width plus one thickness, so the corners close.
pub const SIDE_WALL_H: i64 = ARENA_H + WALL_THICKNESS;
pub const END_WALL_W: i64 = ARENA_W + WALL_THICKNESS;

/// Half the wall thickness.
pub const HALF_WALL_THICKNESS: i64 = 5_000;

// Wall center lines: half the arena height or width from the origin.
pub const TOP_WALL: i64 = 400_000;
pub const BOTTOM_WALL: i64 = -400_000;
pub const LEFT_WALL: i64 = -600_000;
pub const RIGHT_WALL: i64 = 600_000;

/// Configured ball diameter (25 units). The ball's collision circle uses this
/// whole value as its radius, before the effective-radius shrink.
pub const BALL_DIAMETER: i64 = 25_000;

/// Ball speed, milliunits per millisecond (400 units per second).
pub const BALL_SPEED: i64 = 400;

/// Initial ball position (200, 0), drawn above the walls (z-order 1).
pub const BALL_START_X: i64 = 200_000;
pub const BALL_START_Y: i64 = 0;
pub const BALL_START_Z: i64 = 1_000;

/// Paddle half-size: 10 units wide, 100 units tall.
pub const PADDLE_W: i64 = 10_000;
pub const PADDLE_H: i64 = 100_000;

/// Half the paddle's half-width.
pub const HALF_PADDLE_W: i64 = 5_000;

/// Clearance kept between the paddle and the wall behind it (20 units).
pub const PADDLE_DISTANCE_TO_WALL: i64 = 20_000;

/// Paddle speed, milliunits per millisecond (300 units per second).
pub const PADDLE_SPEED: i64 = 300;

/// The paddle sits just inside the left wall.
pub const PADDLE_START_X: i64 = LEFT_WALL + WALL_THICKNESS + PADDLE_DISTANCE_TO_WALL + HALF_PADDLE_W;
pub const PADDLE_START_Y: i64 = 0;
pub const PADDLE_START_Z: i64 = 1_000;

/// Highest center height the paddle may reach.
pub const PADDLE_TOP_BOUND: i64 = TOP_WALL + HALF_WALL_THICKNESS - PADDLE_H - PADDLE_DISTANCE_TO_WALL;

/// Lowest center height the paddle may reach.
pub const PADDLE_BOTTOM_BOUND: i64 = BOTTOM_WALL - HALF_WALL_THICKNESS + PADDLE_H + PADDLE_DISTANCE_TO_WALL;

/// The configured ball direction (0.5, 0) normalized and scaled by the ball
/// speed: the ball starts moving along the positive x axis.
pub open spec fn ball_initial_velocity_spec() -> Vec2 {
    Vec2 { x: BALL_SPEED, y: 0 }
}

/// Initial ball velocity: the unit vector along x times the ball speed.
pub fn ball_initial_velocity() -> (v: Vec2)
    ensures
        v == ball_initial_velocity_spec(),
{
    Vec2 { x: BALL_SPEED, y: 0 }
}

/// Which side of the arena a wall is located on.
#[derive(Clone, Copy, PartialEq, Eq, Structural, Debug)]
pub enum WallLocation {
    Left,
    Right,
    Bottom,
    Top,
}

pub open spec fn wall_position_spec(loc: WallLocation) -> Vec2 {
    match loc {
        WallLocation::Left => Vec2 { x: LEFT_WALL, y: 0 },
        WallLocation::Right => Vec2 { x: RIGHT_WALL, y: 0 },
        WallLocation::Bottom => Vec2 { x: 0, y: BOTTOM_WALL },
        WallLocation::Top => Vec2 { x: 0, y: TOP_WALL },
    }
}

/// Full size of a wall: side walls span the arena height plus a thickness so
/// the corners close; top and bottom walls likewise span the width.
pub open spec fn wall_size_spec(loc: WallLocation) -> Vec2 {
    match loc {
        WallLocation::Left | WallLocation::Right => Vec2 { x: WALL_THICKNESS, y: SIDE_WALL_H },
        WallLocation::Bottom | WallLocation::Top => Vec2 { x: END_WALL_W, y: WALL_THICKNESS },
    }
}

impl WallLocation {
    /// Center of the wall on this side of the arena.
    pub fn position(&self) -> (p: Vec2)
        ensures
            p == wall_position_spec(*self),
    {
        match self {
            WallLocation::Left => Vec2 { x: LEFT_WALL, y: 0 },
            WallLocation::Right => Vec2 { x: RIGHT_WALL, y: 0 },
            WallLocation::Bottom => Vec2 { x: 0, y: BOTTOM_WALL },
            WallLocation::Top => Vec2 { x: 0, y: TOP_WALL },
        }
    }

    /// Full size (width, height) of the wall on this side of the arena.
    pub fn size(&self) -> (s: Vec2)
        ensures
            s == wall_size_spec(*self),
    {
        match self {
            WallLocation::Left | WallLocation::Right => Vec2 { x: WALL_THICKNESS, y: SIDE_WALL_H },
            WallLocation::Bottom | WallLocation::Top => Vec2 { x: END_WALL_W, y: WALL_THICKNESS },
        }
    }
}

} // verus!
