use pong_core::config::{BALL_DIAMETER, PADDLE_BOTTOM_BOUND, PADDLE_TOP_BOUND};
use pong_core::geometry::Vec2;
use pong_core::systems::{apply_velocity, check_for_collision, effective_radius, move_paddle, tick};
use pong_core::world::{Entity, Position, World, setup};

fn ball_at(x: i64, y: i64, vx: i64, vy: i64) -> Entity {
    Entity {
        position: Position { x, y, z: 1_000 },
        velocity: Some(Vec2 { x: vx, y: vy }),
        extent: None,
    }
}

fn collider_at(x: i64, y: i64, hx: i64, hy: i64) -> Entity {
    Entity {
        position: Position { x, y, z: 0 },
        velocity: None,
        extent: Some(Vec2 { x: hx, y: hy }),
    }
}

/// A dummy paddle far from the action, so scenario worlds satisfy the world
/// invariant without the paddle taking part.
fn idle_paddle() -> Entity {
    Entity { position: Position { x: -565_000, y: 0, z: 1_000 }, velocity: None, extent: None }
}

fn top_wall() -> Entity {
    collider_at(0, 400_000, 605_000, 5_000)
}

fn scenario_world(ball: Entity, colliders: Vec<Entity>) -> World {
    let mut entities = vec![ball, idle_paddle()];
    entities.extend(colliders);
    World { entities, ball: 0, paddle: 1, ball_radius: BALL_DIAMETER, events: Vec::new() }
}

#[test]
fn integration_is_exact() {
    let mut w = scenario_world(ball_at(3, 4, 5, -7), vec![collider_at(100_000, 0, 1_000, 1_000)]);
    apply_velocity(&mut w, 10);
    // movable entities advance by exactly velocity * dt
    assert_eq!(w.entities[0].position, Position { x: 53, y: -66, z: 1_000 });
    // entities without a velocity stay put
    assert_eq!(w.entities[2].position, Position { x: 100_000, y: 0, z: 0 });
}

#[test]
fn integration_is_frame_rate_independent() {
    let mut coarse = scenario_world(ball_at(0, 0, 400, -300), vec![]);
    let mut fine = scenario_world(ball_at(0, 0, 400, -300), vec![]);
    apply_velocity(&mut coarse, 16);
    apply_velocity(&mut fine, 8);
    apply_velocity(&mut fine, 8);
    assert_eq!(coarse.entities[0].position, fine.entities[0].position);
}

#[test]
fn paddle_moves_up_at_paddle_speed() {
    let mut w = setup();
    move_paddle(&mut w, true, false, 10);
    // 10 ms at 300 milliunits per ms
    assert_eq!(w.entities[1].position.y, 3_000);
    assert_eq!(w.entities[1].position.x, -565_000);
}

#[test]
fn paddle_moves_down_at_paddle_speed() {
    let mut w = setup();
    move_paddle(&mut w, false, true, 10);
    assert_eq!(w.entities[1].position.y, -3_000);
}

#[test]
fn opposite_inputs_cancel() {
    let mut w = setup();
    move_paddle(&mut w, true, true, 10);
    assert_eq!(w.entities[1].position.y, 0);
    move_paddle(&mut w, false, false, 10);
    assert_eq!(w.entities[1].position.y, 0);
}

#[test]
fn paddle_clamps_to_top_bound() {
    let mut w = setup();
    w.entities[1].position.y = 280_000;
    // a large step that would overshoot lands exactly on the bound
    move_paddle(&mut w, true, false, 20_000);
    assert_eq!(w.entities[1].position.y, PADDLE_TOP_BOUND);
    assert_eq!(w.entities[1].position.y, 285_000);
}

#[test]
fn paddle_clamps_to_bottom_bound() {
    let mut w = setup();
    w.entities[1].position.y = -280_000;
    move_paddle(&mut w, false, true, 20_000);
    assert_eq!(w.entities[1].position.y, PADDLE_BOTTOM_BOUND);
    assert_eq!(w.entities[1].position.y, -285_000);
}

#[test]
fn paddle_already_on_bound_stays() {
    let mut w = setup();
    w.entities[1].position.y = PADDLE_TOP_BOUND;
    move_paddle(&mut w, true, false, 10);
    assert_eq!(w.entities[1].position.y, PADDLE_TOP_BOUND);
}

#[test]
fn effective_radius_shrinks_by_a_fifth() {
    assert_eq!(effective_radius(BALL_DIAMETER), 20_000);
    assert_eq!(effective_radius(0), 0);
}

#[test]
fn straight_approach_bounces_off_top_wall() {
    // ball 5 units under the top wall's face, moving straight up
    let mut w = scenario_world(ball_at(0, 395_000, 0, 400), vec![top_wall()]);
    tick(&mut w, 10, false, false);
    assert_eq!(w.entities[0].position.x, 0);
    assert_eq!(w.entities[0].position.y, 399_000);
    assert_eq!(w.events.len(), 1);
    // struck the wall's underside while moving up: the climb reverses
    assert_eq!(w.entities[0].velocity, Some(Vec2 { x: 0, y: -400 }));
}

#[test]
fn moving_away_is_detected_but_not_reflected() {
    // same spot under the top wall, but the ball is already heading down:
    // the overlap still counts one collision, yet the directional rule
    // leaves the velocity alone
    let mut w = scenario_world(ball_at(0, 395_000, 0, -400), vec![top_wall()]);
    tick(&mut w, 10, false, false);
    assert_eq!(w.entities[0].position.y, 391_000);
    assert_eq!(w.events.len(), 1);
    assert_eq!(w.entities[0].velocity, Some(Vec2 { x: 0, y: -400 }));
}

#[test]
fn single_overlap_records_single_event() {
    let mut w = scenario_world(ball_at(0, 395_000, 0, 400), vec![top_wall()]);
    tick(&mut w, 10, false, false);
    assert_eq!(w.events.len(), 1);
    // a second tick still overlapping starts a fresh list and again records
    // exactly one
    tick(&mut w, 10, false, false);
    assert_eq!(w.events.len(), 1);
}

#[test]
fn speed_is_conserved_through_a_bounce() {
    let mut w = scenario_world(ball_at(1_000, 394_000, 300, 400), vec![top_wall()]);
    tick(&mut w, 10, false, false);
    let v = w.entities[0].velocity.unwrap();
    assert_eq!(v.x * v.x + v.y * v.y, 300 * 300 + 400 * 400);
}

#[test]
fn effective_radius_governs_the_trigger() {
    // face of the top wall at y = 395_000; effective radius 20_000
    // 21 units away: the full radius would touch, the effective one does not
    let mut far = scenario_world(ball_at(0, 374_000, 0, 0), vec![top_wall()]);
    check_for_collision(&mut far);
    assert_eq!(far.events.len(), 0);
    // exactly 20 units away: the effective radius just reaches
    let mut near = scenario_world(ball_at(0, 375_000, 0, 0), vec![top_wall()]);
    check_for_collision(&mut near);
    assert_eq!(near.events.len(), 1);
}

#[test]
fn overlapping_two_colliders_compounds() {
    // two overlapping walls stacked at the same place: both count, and the
    // second sees the velocity the first produced (flip, then no-op)
    let mut w = scenario_world(ball_at(0, 395_000, 0, 400), vec![top_wall(), top_wall()]);
    tick(&mut w, 10, false, false);
    assert_eq!(w.events.len(), 2);
    assert_eq!(w.entities[0].velocity, Some(Vec2 { x: 0, y: -400 }));
}

#[test]
fn setup_spawns_ball_paddle_and_four_walls() {
    let w = setup();
    assert_eq!(w.entities.len(), 6);
    assert_eq!(w.ball, 0);
    assert_eq!(w.paddle, 1);
    assert_eq!(w.ball_radius, 25_000);
    assert_eq!(w.events.len(), 0);

    assert_eq!(w.entities[0].position, Position { x: 200_000, y: 0, z: 1_000 });
    assert_eq!(w.entities[0].velocity, Some(Vec2 { x: 400, y: 0 }));
    assert_eq!(w.entities[0].extent, None);

    assert_eq!(w.entities[1].position, Position { x: -565_000, y: 0, z: 1_000 });
    assert_eq!(w.entities[1].velocity, Some(Vec2 { x: 0, y: 0 }));
    assert_eq!(w.entities[1].extent, Some(Vec2 { x: 10_000, y: 100_000 }));

    // walls: top, bottom, left, right, with half their full sizes
    assert_eq!(w.entities[2].position, Position { x: 0, y: 400_000, z: 0 });
    assert_eq!(w.entities[2].extent, Some(Vec2 { x: 605_000, y: 5_000 }));
    assert_eq!(w.entities[3].position, Position { x: 0, y: -400_000, z: 0 });
    assert_eq!(w.entities[3].extent, Some(Vec2 { x: 605_000, y: 5_000 }));
    assert_eq!(w.entities[4].position, Position { x: -600_000, y: 0, z: 0 });
    assert_eq!(w.entities[4].extent, Some(Vec2 { x: 5_000, y: 405_000 }));
    assert_eq!(w.entities[5].position, Position { x: 600_000, y: 0, z: 0 });
    assert_eq!(w.entities[5].extent, Some(Vec2 { x: 5_000, y: 405_000 }));
    assert!(w.entities[4].velocity.is_none());
}

#[test]
fn quiet_tick_records_no_event() {
    let mut w = setup();
    assert!(w.ready_for_tick(16));
    tick(&mut w, 16, false, false);
    // 16 ms at 400 milliunits per ms along x
    assert_eq!(w.entities[0].position, Position { x: 206_400, y: 0, z: 1_000 });
    assert_eq!(w.entities[0].velocity, Some(Vec2 { x: 400, y: 0 }));
    assert_eq!(w.entities[1].position.y, 0);
    assert_eq!(w.events.len(), 0);
}

#[test]
fn events_clear_at_the_start_of_each_tick() {
    let mut w = scenario_world(ball_at(0, 395_000, 0, 400), vec![top_wall()]);
    tick(&mut w, 10, false, false);
    assert_eq!(w.events.len(), 1);
    // a long quiet tick carries the ball clear of the wall: the event list
    // starts fresh and stays empty
    tick(&mut w, 100, false, false);
    assert_eq!(w.events.len(), 0);
}

#[test]
fn ready_for_tick_rejects_bad_worlds() {
    let w = setup();
    assert!(!w.ready_for_tick(-1));
    let mut bad = setup();
    bad.ball = 9;
    assert!(!bad.ready_for_tick(16));
    let mut fast = setup();
    fast.entities[0].velocity = Some(Vec2 { x: 1_000_000, y: 0 });
    assert!(!fast.ready_for_tick(16));
}

#[test]
fn zero_dt_tick_changes_nothing() {
    let mut w = setup();
    tick(&mut w, 0, true, false);
    assert_eq!(w.entities[0].position, Position { x: 200_000, y: 0, z: 1_000 });
    assert_eq!(w.entities[1].position.y, 0);
    assert_eq!(w.events.len(), 0);
}
