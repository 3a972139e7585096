//! Global guarantees of the physics core, each proved once and for all:
//! clamping is exact and idempotent, reflection is directional and conserves
//! speed, corner ties classify vertically, and one overlapped collider means
//! exactly one collision event.

use vstd::prelude::*;

use crate::geometry::{
    Circle, Collision, abs_spec, clamp_spec, classify_spec, collide_with_side_spec,
    lemma_reflect_conserves_speed, reflect_spec, speed_sq,
};
use crate::systems::{entity_box, hit_entity, hits_upto, resolve_step, resolve_upto};
use crate::world::Entity;

verus! {

/// Clamping an in-range value returns it unchanged; a value above the range
/// yields exactly the upper bound, below it exactly the lower bound; and
/// clamping twice is the same as clamping once.
pub proof fn lemma_clamp_idempotent(v: int, lo: int, hi: int)
    requires
        lo <= hi,
    ensures
        lo <= v <= hi ==> clamp_spec(v, lo, hi) == v,
        v > hi ==> clamp_spec(v, lo, hi) == hi,
        v < lo ==> clamp_spec(v, lo, hi) == lo,
        clamp_spec(clamp_spec(v, lo, hi), lo, hi) == clamp_spec(v, lo, hi),
{
}

/// Reflection is directional: a velocity pointing into the struck side has
/// that component's sign flipped, and a velocity already moving away from it
/// is left unchanged.
pub proof fn lemma_directional_reflection(vx: int, vy: int)
    ensures
        vy < 0 ==> reflect_spec(vx, vy, Collision::Top) == (vx, -vy),
        vy >= 0 ==> reflect_spec(vx, vy, Collision::Top) == (vx, vy),
        vy > 0 ==> reflect_spec(vx, vy, Collision::Bottom) == (vx, -vy),
        vy <= 0 ==> reflect_spec(vx, vy, Collision::Bottom) == (vx, vy),
        vx > 0 ==> reflect_spec(vx, vy, Collision::Left) == (-vx, vy),
        vx <= 0 ==> reflect_spec(vx, vy, Collision::Left) == (vx, vy),
        vx < 0 ==> reflect_spec(vx, vy, Collision::Right) == (-vx, vy),
        vx >= 0 ==> reflect_spec(vx, vy, Collision::Right) == (vx, vy),
{
}

/// When the offset's components tie in magnitude, the classification always
/// takes the vertical branch: Top for a positive y offset, Bottom otherwise.
/// The horizontal branch needs a strictly larger x offset.
pub proof fn lemma_corner_tie_break(ox: int, oy: int)
    requires
        abs_spec(ox) == abs_spec(oy),
    ensures
        classify_spec(ox, oy) == if oy > 0 {
            Collision::Top
        } else {
            Collision::Bottom
        },
{
}

/// Resolving the ball against one entity conserves its speed.
pub proof fn lemma_step_conserves_speed(c: Circle, e: Entity, vx: int, vy: int)
    ensures
        speed_sq(resolve_step(c, e, vx, vy).0, resolve_step(c, e, vx, vy).1) == speed_sq(vx, vy),
{
    match e.extent {
        Some(h) => match collide_with_side_spec(c, entity_box(e, h)) {
            Some(side) => lemma_reflect_conserves_speed(vx, vy, side),
            None => {},
        },
        None => {},
    }
}

/// Speed conservation: however many colliders the ball strikes in a tick,
/// and in whatever order, resolution never changes the magnitude of its
/// velocity, only signs of its components.
pub proof fn lemma_resolution_conserves_speed(
    s: Seq<Entity>,
    c: Circle,
    vx: int,
    vy: int,
    n: int,
)
    ensures
        speed_sq(resolve_upto(s, c, vx, vy, n).0, resolve_upto(s, c, vx, vy, n).1) == speed_sq(
            vx,
            vy,
        ),
    decreases n,
{
    if n > 0 {
        lemma_resolution_conserves_speed(s, c, vx, vy, n - 1);
        let prev = resolve_upto(s, c, vx, vy, n - 1);
        lemma_step_conserves_speed(c, s[n - 1], prev.0, prev.1);
    }
}

/// A scene where the ball strikes nothing records no event.
pub proof fn lemma_no_hit_no_event(s: Seq<Entity>, c: Circle, n: int)
    requires
        forall|i: int| 0 <= i < n ==> !hit_entity(c, #[trigger] s[i]),
    ensures
        hits_upto(s, c, n) == 0,
    decreases n,
{
    if n > 0 {
        lemma_no_hit_no_event(s, c, n - 1);
    }
}

/// No double counting: a ball overlapping exactly one collider among the
/// first `n` entities yields exactly one collision event, however the
/// reflection went.
pub proof fn lemma_single_overlap_single_event(s: Seq<Entity>, c: Circle, j: int, n: int)
    requires
        0 <= j < n,
        hit_entity(c, s[j]),
        forall|i: int| 0 <= i < n && i != j ==> !hit_entity(c, #[trigger] s[i]),
    ensures
        hits_upto(s, c, n) == 1,
    decreases n,
{
    if j == n - 1 {
        lemma_no_hit_no_event(s, c, n - 1);
    } else {
        lemma_single_overlap_single_event(s, c, j, n - 1);
    }
}

/// Event counts never go negative (they count strikes).
pub proof fn lemma_hits_nonnegative(s: Seq<Entity>, c: Circle, n: int)
    ensures
        hits_upto(s, c, n) >= 0,
    decreases n,
{
    if n > 0 {
        lemma_hits_nonnegative(s, c, n - 1);
    }
}

} // verus!
