//! The entity table of the simulation: a flat list of entities with optional
//! capabilities (a velocity for movable entities, a box half-extent for
//! colliders), the indices of the ball and the paddle, and the per-tick
//! collision event list.

use vstd::prelude::*;

use crate::config::{
    BALL_DIAMETER, BALL_START_X, BALL_START_Y, BALL_START_Z, HALF_WALL_THICKNESS, PADDLE_H,
    PADDLE_START_X, PADDLE_START_Y, PADDLE_START_Z, PADDLE_W, WallLocation, ball_initial_velocity,
    ball_initial_velocity_spec, wall_position_spec, wall_size_spec,
};
use crate::geometry::{COORD_LIMIT, Vec2, coord_in_range};

verus! {

/// Half the full size of a top or bottom wall along x.
pub const HALF_END_WALL_W: i64 = 605_000;

/// Half the full size of a left or right wall along y.
pub const HALF_SIDE_WALL_H: i64 = 405_000;

/// Bound on entity positions accepted at the start of a tick; far outside the
/// arena, and small enough that one tick of integration stays in coordinate
/// range for the collision test.
pub const POS_LIMIT: i64 = 200_000_000;

/// Bound on velocity components (milliunits per millisecond).
pub const VEL_LIMIT: i64 = 10_000;

/// Bound on the time delta of one tick (milliseconds).
pub const DT_LIMIT: i64 = 20_000;

/// A 2D position plus a z-order value used only for draw layering; the
/// physics never reads or writes `z`.
#[derive(Clone, Copy, PartialEq, Eq, Structural, Debug)]
pub struct Position {
    pub x: i64,
    pub y: i64,
    pub z: i64,
}

/// One entity of the simulation. A `Some` velocity makes it movable; a `Some`
/// extent makes it a collider with that box half-size.
#[derive(Clone, Copy, PartialEq, Eq, Debug)]
pub struct Entity {
    pub position: Position,
    pub velocity: Option<Vec2>,
    pub extent: Option<Vec2>,
}

/// A collision notification. It carries no payload; one is recorded per
/// collider the ball strikes in a tick.
#[derive(Clone, Copy, PartialEq, Eq, Structural, Debug)]
pub struct CollisionEvent {}

/// The whole simulation state: the entity table, which rows are the ball and
/// the paddle, the ball's collision circle radius, and the events recorded by
/// the last tick.
#[derive(Debug)]
pub struct World {
    pub entities: Vec<Entity>,
    pub ball: usize,
    pub paddle: usize,
    pub ball_radius: i64,
    pub events: Vec<CollisionEvent>,
}

/// Capability bounds of one entity: position within `POS_LIMIT`, velocity
/// within `VEL_LIMIT`, and a non-negative extent within coordinate range.
pub open spec fn entity_bounded(e: Entity) -> bool {
    &&& -POS_LIMIT <= e.position.x <= POS_LIMIT
    &&& -POS_LIMIT <= e.position.y <= POS_LIMIT
    &&& match e.velocity {
        Some(v) => -VEL_LIMIT <= v.x <= VEL_LIMIT && -VEL_LIMIT <= v.y <= VEL_LIMIT,
        None => true,
    }
    &&& match e.extent {
        Some(h) => 0 <= h.x <= COORD_LIMIT && 0 <= h.y <= COORD_LIMIT,
        None => true,
    }
}

pub open spec fn scene_bounded(s: Seq<Entity>) -> bool {
    forall|i: int| 0 <= i < s.len() ==> entity_bounded(#[trigger] s[i])
}

/// Positions within the coordinate range of the collision test; holds of any
/// scene the integrator produces from a `scene_bounded` one.
pub open spec fn scene_in_range(s: Seq<Entity>) -> bool {
    forall|i: int| 0 <= i < s.len() ==> {
        &&& coord_in_range((#[trigger] s[i]).position.x as int)
        &&& coord_in_range(s[i].position.y as int)
    }
}

impl World {
    /// Structural invariant: the ball and paddle rows exist and differ, the
    /// ball is movable and is itself not a collision target, every extent is
    /// a well-formed half-size, and the radius is meaningful.
    pub open spec fn wf(self) -> bool {
        &&& (self.ball as int) < self.entities@.len()
        &&& (self.paddle as int) < self.entities@.len()
        &&& self.ball != self.paddle
        &&& self.entities@[self.ball as int].velocity is Some
        &&& self.entities@[self.ball as int].extent is None
        &&& 0 <= self.ball_radius <= COORD_LIMIT
    }

    /// Runtime check of everything a tick needs: the structural invariant,
    /// the capability bounds of every entity, and the time delta's range.
    /// Lets an unverified caller test the tick's precondition before each
    /// call.
    pub fn ready_for_tick(&self, dt: i64) -> (r: bool)
        ensures
            r == (self.wf() && scene_bounded(self.entities@) && 0 <= dt <= DT_LIMIT),
    {
        if !(self.ball < self.entities.len() && self.paddle < self.entities.len()
            && self.ball != self.paddle) {
            return false;
        }
        let ball = &self.entities[self.ball];
        if ball.velocity.is_none() || ball.extent.is_some() {
            return false;
        }
        if !(0 <= self.ball_radius && self.ball_radius <= COORD_LIMIT) {
            return false;
        }
        if !(0 <= dt && dt <= DT_LIMIT) {
            return false;
        }
        let mut i: usize = 0;
        while i < self.entities.len()
            invariant
                i <= self.entities@.len(),
                forall|j: int| 0 <= j < i ==> entity_bounded(#[trigger] self.entities@[j]),
            decreases self.entities@.len() - i,
        {
            let e = &self.entities[i];
            if !(-POS_LIMIT <= e.position.x && e.position.x <= POS_LIMIT && -POS_LIMIT
                <= e.position.y && e.position.y <= POS_LIMIT) {
                return false;
            }
            match e.velocity {
                Some(v) => {
                    if !(-VEL_LIMIT <= v.x && v.x <= VEL_LIMIT && -VEL_LIMIT <= v.y && v.y
                        <= VEL_LIMIT) {
                        return false;
                    }
                },
                None => {},
            }
            match e.extent {
                Some(h) => {
                    if !(0 <= h.x && h.x <= COORD_LIMIT && 0 <= h.y && h.y <= COORD_LIMIT) {
                        return false;
                    }
                },
                None => {},
            }
            i = i + 1;
        }
        true
    }
}

pub open spec fn wall_half_extent_spec(loc: WallLocation) -> Vec2 {
    match loc {
        WallLocation::Left | WallLocation::Right => Vec2 {
            x: HALF_WALL_THICKNESS,
            y: HALF_SIDE_WALL_H,
        },
        WallLocation::Bottom | WallLocation::Top => Vec2 {
            x: HALF_END_WALL_W,
            y: HALF_WALL_THICKNESS,
        },
    }
}

pub open spec fn wall_entity_spec(loc: WallLocation) -> Entity {
    Entity {
        position: Position { x: wall_position_spec(loc).x, y: wall_position_spec(loc).y, z: 0 },
        velocity: None,
        extent: Some(wall_half_extent_spec(loc)),
    }
}

/// Box half-extent of the wall on this side: half its full size.
pub fn wall_half_extent(loc: WallLocation) -> (h: Vec2)
    ensures
        h == wall_half_extent_spec(loc),
        2 * h.x == wall_size_spec(loc).x,
        2 * h.y == wall_size_spec(loc).y,
{
    match loc {
        WallLocation::Left | WallLocation::Right => Vec2 {
            x: HALF_WALL_THICKNESS,
            y: HALF_SIDE_WALL_H,
        },
        WallLocation::Bottom | WallLocation::Top => Vec2 {
            x: HALF_END_WALL_W,
            y: HALF_WALL_THICKNESS,
        },
    }
}

/// Build the collider entity for the wall on one side of the arena.
pub fn wall_entity(loc: WallLocation) -> (e: Entity)
    ensures
        e == wall_entity_spec(loc),
{
    let p = loc.position();
    Entity {
        position: Position { x: p.x, y: p.y, z: 0 },
        velocity: None,
        extent: Some(wall_half_extent(loc)),
    }
}

pub open spec fn ball_entity_spec() -> Entity {
    Entity {
        position: Position { x: BALL_START_X, y: BALL_START_Y, z: BALL_START_Z },
        velocity: Some(ball_initial_velocity_spec()),
        extent: None,
    }
}

pub open spec fn paddle_entity_spec() -> Entity {
    Entity {
        position: Position { x: PADDLE_START_X, y: PADDLE_START_Y, z: PADDLE_START_Z },
        velocity: Some(Vec2 { x: 0, y: 0 }),
        extent: Some(Vec2 { x: PADDLE_W, y: PADDLE_H }),
    }
}

/// Create the initial world: the ball, the paddle, and the four walls, with
/// an empty event list.
pub fn setup() -> (w: World)
    ensures
        w.wf(),
        scene_bounded(w.entities@),
        w.ball == 0,
        w.paddle == 1,
        w.ball_radius == BALL_DIAMETER,
        w.events@.len() == 0,
        w.entities@.len() == 6,
        w.entities@[0] == ball_entity_spec(),
        w.entities@[1] == paddle_entity_spec(),
        w.entities@[2] == wall_entity_spec(WallLocation::Top),
        w.entities@[3] == wall_entity_spec(WallLocation::Bottom),
        w.entities@[4] == wall_entity_spec(WallLocation::Left),
        w.entities@[5] == wall_entity_spec(WallLocation::Right),
{
    let mut entities: Vec<Entity> = Vec::new();
    entities.push(
        Entity {
            position: Position { x: BALL_START_X, y: BALL_START_Y, z: BALL_START_Z },
            velocity: Some(ball_initial_velocity()),
            extent: None,
        },
    );
    entities.push(
        Entity {
            position: Position { x: PADDLE_START_X, y: PADDLE_START_Y, z: PADDLE_START_Z },
            velocity: Some(Vec2 { x: 0, y: 0 }),
            extent: Some(Vec2 { x: PADDLE_W, y: PADDLE_H }),
        },
    );
    entities.push(wall_entity(WallLocation::Top));
    entities.push(wall_entity(WallLocation::Bottom));
    entities.push(wall_entity(WallLocation::Left));
    entities.push(wall_entity(WallLocation::Right));
    World { entities, ball: 0, paddle: 1, ball_radius: BALL_DIAMETER, events: Vec::new() }
}

} // verus!
