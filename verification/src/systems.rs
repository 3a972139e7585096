//! The three per-tick stages, run in a fixed order: velocity integration,
//! paddle movement with clamping, and collision resolution with directional
//! reflection and event recording.

use vstd::prelude::*;
use vstd::pervasive::VecAdditionalExecFns;

use crate::config::{PADDLE_BOTTOM_BOUND, PADDLE_SPEED, PADDLE_TOP_BOUND};
use crate::geometry::{
    Aabb, Circle, COORD_LIMIT, Vec2, abs_spec, clamp_i64, clamp_spec, collide_with_side,
    collide_with_side_spec, coord_in_range, intersects_spec, lemma_equal_magnitudes_equal_speed,
    reflect, reflect_spec, speed_sq,
};
use crate::world::{
    CollisionEvent, DT_LIMIT, Entity, Position, VEL_LIMIT, World, entity_bounded,
    scene_bounded, scene_in_range,
};

verus! {

pub proof fn lemma_mul_bound(a: int, b: int, ca: int, cb: int)
    by (nonlinear_arith)
    requires
        -ca <= a <= ca,
        0 <= b <= cb,
        0 <= ca,
    ensures
        -(ca * cb) <= a * b <= ca * cb,
{
}

// ---------------------------------------------------------------------------
// Integrator
// ---------------------------------------------------------------------------

/// One entity advanced by its velocity for `dt` milliseconds; an entity
/// without a velocity is left as it is. The z-order never moves.
pub open spec fn integrate_entity_spec(e: Entity, dt: int) -> Entity {
    match e.velocity {
        Some(v) => Entity {
            position: Position {
                x: (e.position.x + v.x * dt) as i64,
                y: (e.position.y + v.y * dt) as i64,
                z: e.position.z,
            },
            velocity: e.velocity,
            extent: e.extent,
        },
        None => e,
    }
}

pub open spec fn integrate_scene_spec(s: Seq<Entity>, dt: int) -> Seq<Entity> {
    s.map_values(|e: Entity| integrate_entity_spec(e, dt))
}

/// Advance every movable entity: `position += velocity * dt`, exactly.
pub fn apply_velocity(world: &mut World, dt: i64)
    requires
        0 <= dt <= DT_LIMIT,
        scene_bounded(old(world).entities@),
    ensures
        final(world).entities@ == integrate_scene_spec(old(world).entities@, dt as int),
        final(world).entities@.len() == old(world).entities@.len(),
        final(world).ball == old(world).ball,
        final(world).paddle == old(world).paddle,
        final(world).ball_radius == old(world).ball_radius,
        final(world).events@ == old(world).events@,
        // the integration is exact: no truncation or rounding happens
        forall|i: int|
            0 <= i < old(world).entities@.len() ==> {
                let e = #[trigger] old(world).entities@[i];
                let e2 = final(world).entities@[i];
                match e.velocity {
                    Some(v) => {
                        &&& e2.position.x == e.position.x + v.x * dt
                        &&& e2.position.y == e.position.y + v.y * dt
                        &&& e2.position.z == e.position.z
                        &&& e2.velocity == e.velocity
                        &&& e2.extent == e.extent
                    },
                    None => e2 == e,
                }
            },
{
    let ghost s0 = world.entities@;
    let mut i: usize = 0;
    while i < world.entities.len()
        invariant
            0 <= dt <= DT_LIMIT,
            scene_bounded(s0),
            i <= world.entities@.len(),
            world.entities@.len() == s0.len(),
            world.ball == old(world).ball,
            world.paddle == old(world).paddle,
            world.ball_radius == old(world).ball_radius,
            world.events@ == old(world).events@,
            s0 == old(world).entities@,
            forall|j: int|
                0 <= j < i ==> world.entities@[j] == integrate_entity_spec(#[trigger] s0[j], dt as int),
            forall|j: int| i <= j < s0.len() ==> world.entities@[j] == #[trigger] s0[j],
        decreases world.entities@.len() - i,
    {
        let e = world.entities[i];
        match e.velocity {
            Some(v) => {
                proof {
                    assert(entity_bounded(s0[i as int]));
                    lemma_mul_bound(v.x as int, dt as int, VEL_LIMIT as int, DT_LIMIT as int);
                    lemma_mul_bound(v.y as int, dt as int, VEL_LIMIT as int, DT_LIMIT as int);
                }
                let e2 = Entity {
                    position: Position {
                        x: e.position.x + v.x * dt,
                        y: e.position.y + v.y * dt,
                        z: e.position.z,
                    },
                    velocity: e.velocity,
                    extent: e.extent,
                };
                world.entities.set(i, e2);
            },
            None => {},
        }
        i = i + 1;
    }
    proof {
        assert(world.entities@ =~= integrate_scene_spec(s0, dt as int));
        assert forall|i: int| 0 <= i < s0.len() implies {
            let e = #[trigger] s0[i];
            let e2 = world.entities@[i];
            match e.velocity {
                Some(v) => {
                    &&& e2.position.x == e.position.x + v.x * dt
                    &&& e2.position.y == e.position.y + v.y * dt
                    &&& e2.position.z == e.position.z
                    &&& e2.velocity == e.velocity
                    &&& e2.extent == e.extent
                },
                None => e2 == e,
            }
        } by {
            assert(entity_bounded(s0[i]));
            match s0[i].velocity {
                Some(v) => {
                    lemma_mul_bound(v.x as int, dt as int, VEL_LIMIT as int, DT_LIMIT as int);
                    lemma_mul_bound(v.y as int, dt as int, VEL_LIMIT as int, DT_LIMIT as int);
                },
                None => {},
            }
        }
    }
}

// ---------------------------------------------------------------------------
// Paddle controller
// ---------------------------------------------------------------------------

/// Input direction: up counts +1, down counts -1; together or neither they
/// cancel to 0.
pub open spec fn direction_spec(up: bool, down: bool) -> int {
    (if up {
        1int
    } else {
        0int
    }) - (if down {
        1int
    } else {
        0int
    })
}

/// The paddle's next center height: the candidate reached at paddle speed,
/// clamped into the playable range.
pub open spec fn paddle_target_spec(y: int, up: bool, down: bool, dt: int) -> int {
    clamp_spec(
        y + direction_spec(up, down) * dt * PADDLE_SPEED,
        PADDLE_BOTTOM_BOUND as int,
        PADDLE_TOP_BOUND as int,
    )
}

pub open spec fn move_paddle_scene_spec(
    s: Seq<Entity>,
    paddle: int,
    up: bool,
    down: bool,
    dt: int,
) -> Seq<Entity> {
    let e = s[paddle];
    s.update(
        paddle,
        Entity {
            position: Position {
                x: e.position.x,
                y: paddle_target_spec(e.position.y as int, up, down, dt) as i64,
                z: e.position.z,
            },
            velocity: e.velocity,
            extent: e.extent,
        },
    )
}

/// Read the two input signals and move the paddle vertically, clamping its
/// center into `[PADDLE_BOTTOM_BOUND, PADDLE_TOP_BOUND]`. Only the paddle's
/// y coordinate changes.
pub fn move_paddle(world: &mut World, up_pressed: bool, down_pressed: bool, dt: i64)
    requires
        old(world).wf(),
        0 <= dt <= DT_LIMIT,
        coord_in_range(old(world).entities@[old(world).paddle as int].position.y as int),
    ensures
        final(world).entities@ == move_paddle_scene_spec(
            old(world).entities@,
            old(world).paddle as int,
            up_pressed,
            down_pressed,
            dt as int,
        ),
        final(world).entities@.len() == old(world).entities@.len(),
        final(world).ball == old(world).ball,
        final(world).paddle == old(world).paddle,
        final(world).ball_radius == old(world).ball_radius,
        final(world).events@ == old(world).events@,
        final(world).wf(),
        // the clamp is exact, and the paddle ends inside the playable range
        final(world).entities@[final(world).paddle as int].position.y == paddle_target_spec(
            old(world).entities@[old(world).paddle as int].position.y as int,
            up_pressed,
            down_pressed,
            dt as int,
        ),
        PADDLE_BOTTOM_BOUND <= final(world).entities@[final(world).paddle as int].position.y
            <= PADDLE_TOP_BOUND,
{
    let paddle_idx = world.paddle;
    let e = world.entities[paddle_idx];
    let step: i64 = dt * PADDLE_SPEED;
    let candidate: i64 = if up_pressed == down_pressed {
        e.position.y
    } else if up_pressed {
        e.position.y + step
    } else {
        e.position.y - step
    };
    proof {
        let dir = direction_spec(up_pressed, down_pressed);
        if up_pressed == down_pressed {
            assert(dir * dt * PADDLE_SPEED == 0) by (nonlinear_arith)
                requires
                    dir == 0,
            ;
        } else if up_pressed {
            assert(dir * dt * PADDLE_SPEED == dt * (PADDLE_SPEED as int)) by (nonlinear_arith)
                requires
                    dir == 1,
            ;
        } else {
            assert(dir * dt * PADDLE_SPEED == -(dt * (PADDLE_SPEED as int))) by (nonlinear_arith)
                requires
                    dir == -1,
            ;
        }
        assert(candidate == e.position.y as int + dir * dt * PADDLE_SPEED);
    }
    let clamped = clamp_i64(candidate, PADDLE_BOTTOM_BOUND, PADDLE_TOP_BOUND);
    let e2 = Entity {
        position: Position { x: e.position.x, y: clamped, z: e.position.z },
        velocity: e.velocity,
        extent: e.extent,
    };
    world.entities.set(paddle_idx, e2);
}

// ---------------------------------------------------------------------------
// Collision resolver
// ---------------------------------------------------------------------------

/// The collision circle shrinks the ball's radius by a fifth, so the bounce
/// triggers slightly before the visual edges touch.
pub open spec fn effective_radius_spec(r: int) -> int {
    4 * r / 5
}

/// Four fifths of the ball radius, the radius used by the collision test.
pub fn effective_radius(r: i64) -> (e: i64)
    requires
        0 <= r <= COORD_LIMIT,
    ensures
        e == effective_radius_spec(r as int),
        0 <= e <= r,
{
    let scaled: u64 = (r as u64) * 4;
    let eff: u64 = scaled / 5;
    eff as i64
}

/// The collider box of an entity with half-extent `h`.
pub open spec fn entity_box(e: Entity, h: Vec2) -> Aabb {
    Aabb { center: Vec2 { x: e.position.x, y: e.position.y }, half: h }
}

/// The velocity of a movable entity (zero for the others).
pub open spec fn vel_of(e: Entity) -> Vec2 {
    match e.velocity {
        Some(v) => v,
        None => Vec2 { x: 0, y: 0 },
    }
}

/// Does the ball circle strike this entity? Only colliders can be struck.
pub open spec fn hit_entity(c: Circle, e: Entity) -> bool {
    match e.extent {
        Some(h) => intersects_spec(c, entity_box(e, h)),
        None => false,
    }
}

/// Velocity after testing the ball against one entity: reflected off the
/// struck side on a hit, unchanged otherwise.
pub open spec fn resolve_step(c: Circle, e: Entity, vx: int, vy: int) -> (int, int) {
    match e.extent {
        Some(h) => match collide_with_side_spec(c, entity_box(e, h)) {
            Some(side) => reflect_spec(vx, vy, side),
            None => (vx, vy),
        },
        None => (vx, vy),
    }
}

/// Velocity after testing the ball against the first `n` entities in table
/// order. A ball overlapping several colliders is reflected by each in turn.
pub open spec fn resolve_upto(s: Seq<Entity>, c: Circle, vx: int, vy: int, n: int) -> (int, int)
    decreases n,
{
    if n <= 0 {
        (vx, vy)
    } else {
        let prev = resolve_upto(s, c, vx, vy, n - 1);
        resolve_step(c, s[n - 1], prev.0, prev.1)
    }
}

/// How many of the first `n` entities the ball strikes: one collision event
/// is recorded for each.
pub open spec fn hits_upto(s: Seq<Entity>, c: Circle, n: int) -> int
    decreases n,
{
    if n <= 0 {
        0
    } else {
        hits_upto(s, c, n - 1) + if hit_entity(c, s[n - 1]) {
            1int
        } else {
            0int
        }
    }
}

/// The ball's collision circle in scene `s`: its current center with the
/// effective radius.
pub open spec fn ball_circle(s: Seq<Entity>, ball: int, radius: int) -> Circle {
    Circle {
        center: Vec2 { x: s[ball].position.x, y: s[ball].position.y },
        radius: effective_radius_spec(radius) as i64,
    }
}

/// Half-extents within coordinate range; together with `scene_in_range` this
/// is what the collision test needs of every collider.
pub open spec fn colliders_in_range(s: Seq<Entity>) -> bool {
    forall|i: int| 0 <= i < s.len() ==> match (#[trigger] s[i]).extent {
        Some(h) => 0 <= h.x <= COORD_LIMIT && 0 <= h.y <= COORD_LIMIT,
        None => true,
    }
}

/// Test the ball against every collider in table order; reflect its velocity
/// off each struck side and record one collision event per struck collider.
pub fn check_for_collision(world: &mut World)
    requires
        old(world).wf(),
        scene_in_range(old(world).entities@),
        colliders_in_range(old(world).entities@),
        -VEL_LIMIT <= vel_of(old(world).entities@[old(world).ball as int]).x <= VEL_LIMIT,
        -VEL_LIMIT <= vel_of(old(world).entities@[old(world).ball as int]).y <= VEL_LIMIT,
    ensures
        final(world).ball == old(world).ball,
        final(world).paddle == old(world).paddle,
        final(world).ball_radius == old(world).ball_radius,
        final(world).entities@.len() == old(world).entities@.len(),
        final(world).wf(),
        // only the ball's velocity changes
        final(world).entities@ == old(world).entities@.update(
            old(world).ball as int,
            final(world).entities@[old(world).ball as int],
        ),
        final(world).entities@[old(world).ball as int].position == old(world).entities@[old(
            world,
        ).ball as int].position,
        final(world).entities@[old(world).ball as int].extent == old(world).entities@[old(
            world,
        ).ball as int].extent,
        // the new velocity is the fold of the directional reflections, in
        // table order, over the whole scene
        ({
            let s = old(world).entities@;
            let c = ball_circle(s, old(world).ball as int, old(world).ball_radius as int);
            let v0 = vel_of(s[old(world).ball as int]);
            let rv = resolve_upto(s, c, v0.x as int, v0.y as int, s.len() as int);
            let v2 = vel_of(final(world).entities@[old(world).ball as int]);
            &&& final(world).entities@[old(world).ball as int].velocity == Some(v2)
            &&& v2.x == rv.0
            &&& v2.y == rv.1
            &&& abs_spec(v2.x as int) == abs_spec(v0.x as int)
            &&& abs_spec(v2.y as int) == abs_spec(v0.y as int)
            &&& speed_sq(v2.x as int, v2.y as int) == speed_sq(v0.x as int, v0.y as int)
        }),
        // one event was recorded per struck collider, after those already held
        ({
            let s = old(world).entities@;
            let c = ball_circle(s, old(world).ball as int, old(world).ball_radius as int);
            &&& final(world).events@.len() == old(world).events@.len() + hits_upto(s, c, s.len() as int)
            &&& forall|i: int|
                0 <= i < old(world).events@.len() ==> final(world).events@[i] == old(world).events@[i]
            &&& forall|i: int|
                old(world).events@.len() <= i < final(world).events@.len() ==> final(world).events@[i]
                    == (CollisionEvent {})
        }),
{
    let ghost s = world.entities@;
    let ghost old_events = world.events@;
    let ball_idx = world.ball;
    let e_ball = world.entities[ball_idx];
    let eff = effective_radius(world.ball_radius);
    let circle = Circle { center: Vec2 { x: e_ball.position.x, y: e_ball.position.y }, radius: eff };
    let v0 = e_ball.velocity.unwrap();
    let mut v = v0;
    let mut i: usize = 0;
    while i < world.entities.len()
        invariant
            world.wf(),
            scene_in_range(s),
            colliders_in_range(s),
            i <= s.len(),
            world.entities@ == s,
            world.ball == old(world).ball,
            world.paddle == old(world).paddle,
            world.ball_radius == old(world).ball_radius,
            ball_idx == old(world).ball,
            e_ball == s[ball_idx as int],
            circle == ball_circle(s, ball_idx as int, world.ball_radius as int),
            circle.wf(),
            circle.in_range(),
            v0 == vel_of(s[ball_idx as int]),
            (v.x as int, v.y as int) == resolve_upto(s, circle, v0.x as int, v0.y as int, i as int),
            abs_spec(v.x as int) == abs_spec(v0.x as int),
            abs_spec(v.y as int) == abs_spec(v0.y as int),
            -VEL_LIMIT <= v0.x <= VEL_LIMIT,
            -VEL_LIMIT <= v0.y <= VEL_LIMIT,
            world.events@.len() == old_events.len() + hits_upto(s, circle, i as int),
            forall|j: int| 0 <= j < old_events.len() ==> world.events@[j] == old_events[j],
            forall|j: int|
                old_events.len() <= j < world.events@.len() ==> world.events@[j] == (CollisionEvent {}),
            old_events == old(world).events@,
        decreases s.len() - i,
    {
        let e = world.entities[i];
        match e.extent {
            Some(h) => {
                let wall = Aabb { center: Vec2 { x: e.position.x, y: e.position.y }, half: h };
                let res = collide_with_side(circle, wall);
                match res {
                    Some(side) => {
                        world.events.push(CollisionEvent {});
                        v = reflect(v, side);
                    },
                    None => {},
                }
            },
            None => {},
        }
        i = i + 1;
    }
    let e2 = Entity { position: e_ball.position, velocity: Some(v), extent: e_ball.extent };
    world.entities.set(ball_idx, e2);
    proof {
        lemma_equal_magnitudes_equal_speed(v.x as int, v.y as int, v0.x as int, v0.y as int);
    }
}

// ---------------------------------------------------------------------------
// The tick
// ---------------------------------------------------------------------------

/// The scene after one whole tick: integration, then the paddle move, then
/// the ball's velocity resolved against the updated scene.
pub open spec fn tick_scene_spec(
    s: Seq<Entity>,
    ball: int,
    paddle: int,
    radius: int,
    up: bool,
    down: bool,
    dt: int,
) -> Seq<Entity> {
    let s2 = move_paddle_scene_spec(integrate_scene_spec(s, dt), paddle, up, down, dt);
    let c = ball_circle(s2, ball, radius);
    let v0 = vel_of(s2[ball]);
    let rv = resolve_upto(s2, c, v0.x as int, v0.y as int, s2.len() as int);
    s2.update(
        ball,
        Entity {
            position: s2[ball].position,
            velocity: Some(Vec2 { x: rv.0 as i64, y: rv.1 as i64 }),
            extent: s2[ball].extent,
        },
    )
}

/// How many collision events one tick records.
pub open spec fn tick_hits_spec(
    s: Seq<Entity>,
    ball: int,
    paddle: int,
    radius: int,
    up: bool,
    down: bool,
    dt: int,
) -> int {
    let s2 = move_paddle_scene_spec(integrate_scene_spec(s, dt), paddle, up, down, dt);
    let c = ball_circle(s2, ball, radius);
    hits_upto(s2, c, s2.len() as int)
}

/// One fixed-timestep tick: clear the event list, integrate velocities, move
/// the paddle, then resolve collisions. The stages run in exactly this
/// order; the resolver sees the positions the first two stages produced.
pub fn tick(world: &mut World, dt: i64, up_pressed: bool, down_pressed: bool)
    requires
        old(world).wf(),
        scene_bounded(old(world).entities@),
        0 <= dt <= DT_LIMIT,
    ensures
        final(world).wf(),
        final(world).ball == old(world).ball,
        final(world).paddle == old(world).paddle,
        final(world).ball_radius == old(world).ball_radius,
        final(world).entities@ == tick_scene_spec(
            old(world).entities@,
            old(world).ball as int,
            old(world).paddle as int,
            old(world).ball_radius as int,
            up_pressed,
            down_pressed,
            dt as int,
        ),
        forall|i: int|
            0 <= i < final(world).events@.len() ==> final(world).events@[i] == (CollisionEvent {}),
        final(world).events@.len() == tick_hits_spec(
            old(world).entities@,
            old(world).ball as int,
            old(world).paddle as int,
            old(world).ball_radius as int,
            up_pressed,
            down_pressed,
            dt as int,
        ),
        // reflection only ever flips velocity signs: the ball's speed is the
        // same after the tick as before it
        ({
            let v0 = vel_of(old(world).entities@[old(world).ball as int]);
            let v2 = vel_of(final(world).entities@[old(world).ball as int]);
            &&& abs_spec(v2.x as int) == abs_spec(v0.x as int)
            &&& abs_spec(v2.y as int) == abs_spec(v0.y as int)
            &&& speed_sq(v2.x as int, v2.y as int) == speed_sq(v0.x as int, v0.y as int)
        }),
{
    let ghost s0 = world.entities@;
    world.events = Vec::new();
    apply_velocity(world, dt);
    let ghost s1 = world.entities@;
    proof {
        assert forall|i: int| 0 <= i < s1.len() implies {
            &&& coord_in_range((#[trigger] s1[i]).position.x as int)
            &&& coord_in_range(s1[i].position.y as int)
        } by {
            assert(entity_bounded(s0[i]));
            match s0[i].velocity {
                Some(v) => {
                    lemma_mul_bound(v.x as int, dt as int, VEL_LIMIT as int, DT_LIMIT as int);
                    lemma_mul_bound(v.y as int, dt as int, VEL_LIMIT as int, DT_LIMIT as int);
                },
                None => {},
            }
        }
        assert(colliders_in_range(s1)) by {
            assert forall|i: int| 0 <= i < s1.len() implies match (#[trigger] s1[i]).extent {
                Some(h) => 0 <= h.x <= COORD_LIMIT && 0 <= h.y <= COORD_LIMIT,
                None => true,
            } by {
                assert(entity_bounded(s0[i]));
            }
        }
    }
    move_paddle(world, up_pressed, down_pressed, dt);
    let ghost s2 = world.entities@;
    proof {
        assert(scene_in_range(s2)) by {
            assert forall|i: int| 0 <= i < s2.len() implies {
                &&& coord_in_range((#[trigger] s2[i]).position.x as int)
                &&& coord_in_range(s2[i].position.y as int)
            } by {
                assert(s1[i] == s2[i] || i == old(world).paddle as int);
            }
        }
        assert(colliders_in_range(s2)) by {
            assert forall|i: int| 0 <= i < s2.len() implies match (#[trigger] s2[i]).extent {
                Some(h) => 0 <= h.x <= COORD_LIMIT && 0 <= h.y <= COORD_LIMIT,
                None => true,
            } by {
                assert(s2[i].extent == s1[i].extent);
            }
        }
        assert(entity_bounded(s0[old(world).ball as int]));
    }
    check_for_collision(world);
    proof {
        let v0 = vel_of(old(world).entities@[old(world).ball as int]);
        let v2 = vel_of(world.entities@[old(world).ball as int]);
        lemma_equal_magnitudes_equal_speed(v2.x as int, v2.y as int, v0.x as int, v0.y as int);
    }
}

} // verus!
