//! Scenario tests for the four physics systems, on concrete worlds.
//! All coordinates are fixed-point tenths of a unit.

use platformer_core::entities::{Player, Position, Rect, Velocity, Wall};
use platformer_core::input::InputState;
use platformer_core::systems;
use platformer_core::world::{Ent, World};

fn bare() -> Ent {
    Ent { position: None, velocity: None, rect: None, wall: None, player: None }
}

fn moving(x: i64, y: i64, w: i64, h: i64, dx: i64, dy: i64) -> Ent {
    Ent {
        position: Some(Position { x, y }),
        velocity: Some(Velocity { dx, dy }),
        rect: Some(Rect { width: w, height: h }),
        wall: None,
        player: None,
    }
}

fn player(x: i64, y: i64, w: i64, h: i64, dx: i64, dy: i64, jumping: bool) -> Ent {
    Ent {
        position: Some(Position { x, y }),
        velocity: Some(Velocity { dx, dy }),
        rect: Some(Rect { width: w, height: h }),
        wall: None,
        player: Some(Player { jumping }),
    }
}

fn floor(x: i64, y: i64, w: i64, h: i64) -> Ent {
    Ent {
        position: Some(Position { x, y }),
        velocity: None,
        rect: Some(Rect { width: w, height: h }),
        wall: Some(Wall {}),
        player: None,
    }
}

fn world_of(ents: &[Ent]) -> World {
    let mut w = World::new();
    for e in ents {
        w.push(*e);
    }
    w
}

fn no_keys() -> InputState {
    InputState { up: false, down: false, left: false, right: false }
}

#[test]
fn gravity_adds_one_tenth() {
    let mut w = world_of(&[moving(0, 0, 10, 10, 0, 0)]);
    systems::update_velocity(&mut w);
    assert_eq!(w.get(0).velocity, Some(Velocity { dx: 0, dy: 1 }));
}

#[test]
fn gravity_clamps_at_limit() {
    let mut w = world_of(&[
        moving(0, 0, 10, 10, 0, 29),
        moving(0, 0, 10, 10, 0, 30),
        moving(0, 0, 10, 10, 0, 50),
        moving(0, 0, 10, 10, 0, -100),
    ]);
    systems::update_velocity(&mut w);
    assert_eq!(w.get(0).velocity.unwrap().dy, 30);
    assert_eq!(w.get(1).velocity.unwrap().dy, 30);
    assert_eq!(w.get(2).velocity.unwrap().dy, 30);
    assert_eq!(w.get(3).velocity.unwrap().dy, -30);
}

#[test]
fn gravity_monotone_until_clamped() {
    // From rest, dy grows by 0.1 a frame and holds at 3.0 once it gets there.
    let mut w = world_of(&[moving(0, 0, 10, 10, 0, 0)]);
    for k in 1..40i64 {
        systems::update_velocity(&mut w);
        let expected = if k <= 30 { k } else { 30 };
        assert_eq!(w.get(0).velocity.unwrap().dy, expected);
    }
}

#[test]
fn friction_steps_rightward_speed_down() {
    let mut w = world_of(&[moving(0, 0, 10, 10, 30, 0)]);
    systems::update_velocity(&mut w);
    assert_eq!(w.get(0).velocity.unwrap().dx, 29);
}

#[test]
fn friction_converges_to_exact_zero_in_thirty_frames() {
    // From dx = 3.0 with no further horizontal input: minus 0.1 a frame,
    // exactly 0.0 after 30 frames, never negative on the way.
    let mut w = world_of(&[moving(0, 0, 10, 10, 30, 0)]);
    for k in 1..=35i64 {
        systems::update_velocity(&mut w);
        let dx = w.get(0).velocity.unwrap().dx;
        assert!(dx >= 0);
        let expected = if k <= 30 { 30 - k } else { 0 };
        assert_eq!(dx, expected);
    }
}

#[test]
fn friction_mirrors_for_leftward_speed() {
    let mut w = world_of(&[moving(0, 0, 10, 10, -30, 0), moving(0, 0, 10, 10, -1, 0)]);
    systems::update_velocity(&mut w);
    assert_eq!(w.get(0).velocity.unwrap().dx, -29);
    assert_eq!(w.get(1).velocity.unwrap().dx, 0);
}

#[test]
fn friction_leaves_exact_zero_untouched() {
    let mut w = world_of(&[moving(0, 0, 10, 10, 0, 0)]);
    systems::update_velocity(&mut w);
    systems::update_velocity(&mut w);
    assert_eq!(w.get(0).velocity.unwrap().dx, 0);
}

#[test]
fn static_geometry_is_skipped_by_integration() {
    let mut w = world_of(&[floor(0, 1500, 8000, 200)]);
    systems::update_velocity(&mut w);
    systems::apply_velocity(&mut w);
    assert_eq!(w.get(0).position, Some(Position { x: 0, y: 1500 }));
    assert_eq!(w.get(0).velocity, None);
}

#[test]
fn positions_move_by_velocity() {
    let mut w = world_of(&[moving(100, 200, 10, 10, -7, 13)]);
    systems::apply_velocity(&mut w);
    assert_eq!(w.get(0).position, Some(Position { x: 93, y: 213 }));
    // The velocity itself is untouched by position integration.
    assert_eq!(w.get(0).velocity, Some(Velocity { dx: -7, dy: 13 }));
}

#[test]
fn jump_launch_sets_jumping_and_negative_impulse() {
    // Player at rest on top of a floor, jumping false, Up goes down.
    let mut w = world_of(&[floor(0, 1500, 8000, 200), player(100, 900, 600, 600, 0, 0, false)]);
    let keys = InputState { up: true, down: false, left: false, right: false };
    systems::input(&mut w, &keys);
    assert_eq!(w.get(1).player, Some(Player { jumping: true }));
    let dy = w.get(1).velocity.unwrap().dy;
    assert!(dy < 0);
    assert_eq!(dy, -100);
}

#[test]
fn jump_thrust_is_additive_while_up_stays_held() {
    // With jumping already true and a strongly negative dy, another
    // evaluation with Up still held pushes dy further negative: the
    // observed hold-to-thrust behavior, kept as it is.
    let mut w = world_of(&[player(100, 900, 600, 600, 0, -100, true)]);
    assert!(w.get(0).velocity.unwrap().dy < -80);
    let keys = InputState { up: true, down: false, left: false, right: false };
    systems::input(&mut w, &keys);
    assert_eq!(w.get(0).velocity.unwrap().dy, -200);
    assert_eq!(w.get(0).player, Some(Player { jumping: true }));
}

#[test]
fn steering_impulses_are_additive_in_fixed_order() {
    let mut w = world_of(&[player(0, 0, 10, 10, 0, 0, false)]);
    let keys = InputState { up: true, down: true, left: true, right: true };
    systems::input(&mut w, &keys);
    // Up then Down on the vertical axis: -10.0 + 1.0; Left then Right on
    // the horizontal axis: -1.0 + 1.0.
    assert_eq!(w.get(0).velocity, Some(Velocity { dx: 0, dy: -90 }));
    assert_eq!(w.get(0).player, Some(Player { jumping: true }));
}

#[test]
fn down_left_right_each_steer_by_one_unit() {
    let mut w = world_of(&[player(0, 0, 10, 10, 0, 0, false)]);
    systems::input(&mut w, &InputState { up: false, down: true, left: false, right: false });
    assert_eq!(w.get(0).velocity, Some(Velocity { dx: 0, dy: 10 }));
    systems::input(&mut w, &InputState { up: false, down: false, left: true, right: false });
    assert_eq!(w.get(0).velocity, Some(Velocity { dx: -10, dy: 10 }));
    systems::input(&mut w, &InputState { up: false, down: false, left: false, right: true });
    assert_eq!(w.get(0).velocity, Some(Velocity { dx: 0, dy: 10 }));
}

#[test]
fn input_ignores_entities_without_player_tag() {
    let mut w = world_of(&[moving(0, 0, 10, 10, 0, 0), floor(0, 100, 10, 10)]);
    let keys = InputState { up: true, down: true, left: true, right: true };
    systems::input(&mut w, &keys);
    assert_eq!(w.get(0).velocity, Some(Velocity { dx: 0, dy: 0 }));
    assert_eq!(w.get(1), floor(0, 100, 10, 10));
}

#[test]
fn collision_correction_restores_pre_integration_height() {
    // Player at (10, 95) units, 6x6 units, falling at 0.5 units a frame,
    // over a floor at (0, 150) units sized 80x2 units: after one tick the
    // vertical displacement is undone, dy is zero, jumping is cleared.
    let mut w = world_of(&[
        floor(0, 1500, 8000, 200),
        player(100, 950, 600, 600, 0, 50, true),
    ]);
    let keys = no_keys();
    systems::input(&mut w, &keys);
    systems::update_velocity(&mut w);
    // Gravity then clamp: 5.0 + 0.1 clamps to 3.0.
    assert_eq!(w.get(1).velocity.unwrap().dy, 30);
    systems::apply_velocity(&mut w);
    assert_eq!(w.get(1).position.unwrap().y, 980);
    systems::player_collision(&mut w);
    assert_eq!(w.get(1).position, Some(Position { x: 100, y: 950 }));
    assert_eq!(w.get(1).velocity, Some(Velocity { dx: 0, dy: 0 }));
    assert_eq!(w.get(1).player, Some(Player { jumping: false }));
}

#[test]
fn collision_against_two_bodies_corrects_once_and_clears_jumping() {
    // Two overlapping static bodies under the player: the first hit undoes
    // the displacement and zeroes dy; the second subtracts zero and still
    // clears jumping.
    let mut w = world_of(&[
        floor(0, 1500, 8000, 200),
        floor(0, 1500, 8000, 400),
        player(100, 1400, 600, 600, 0, 20, true),
    ]);
    systems::player_collision(&mut w);
    assert_eq!(w.get(2).position, Some(Position { x: 100, y: 1380 }));
    assert_eq!(w.get(2).velocity, Some(Velocity { dx: 0, dy: 0 }));
    assert_eq!(w.get(2).player, Some(Player { jumping: false }));
}

#[test]
fn collision_leaves_untagged_entities_alone() {
    // A passive dynamic body buried inside static geometry is not corrected.
    let ball = moving(100, 1550, 200, 200, 0, 7);
    let mut w = world_of(&[floor(0, 1500, 8000, 200), ball]);
    systems::player_collision(&mut w);
    assert_eq!(w.get(1), ball);
}

#[test]
fn passive_entity_falls_through_static_geometry_over_a_tick() {
    // Over a whole tick the passive body sees gravity and its own motion
    // only, even while overlapping the floor.
    let mut w = world_of(&[floor(0, 1500, 8000, 200), moving(100, 1550, 200, 200, 0, 0)]);
    let keys = no_keys();
    systems::input(&mut w, &keys);
    systems::update_velocity(&mut w);
    systems::apply_velocity(&mut w);
    systems::player_collision(&mut w);
    assert_eq!(w.get(1).position, Some(Position { x: 100, y: 1551 }));
    assert_eq!(w.get(1).velocity, Some(Velocity { dx: 0, dy: 1 }));
}

#[test]
fn resting_player_is_a_fixed_point_of_repeated_ticks() {
    // No input, zero residual velocity, bottom edge flush with the floor's
    // top: ticks change nothing about the player's position.
    let mut w = world_of(&[floor(0, 1500, 8000, 200), player(100, 900, 600, 600, 0, 0, true)]);
    let keys = no_keys();
    for _ in 0..10 {
        systems::input(&mut w, &keys);
        systems::update_velocity(&mut w);
        systems::apply_velocity(&mut w);
        systems::player_collision(&mut w);
        assert_eq!(w.get(1).position, Some(Position { x: 100, y: 900 }));
        assert_eq!(w.get(1).velocity, Some(Velocity { dx: 0, dy: 0 }));
        assert_eq!(w.get(1).player, Some(Player { jumping: false }));
        assert_eq!(w.get(0), floor(0, 1500, 8000, 200));
    }
}

#[test]
fn collision_without_overlap_changes_nothing() {
    let p = player(100, 100, 600, 600, 5, 5, true);
    let mut w = world_of(&[floor(0, 1500, 8000, 200), p]);
    systems::player_collision(&mut w);
    assert_eq!(w.get(1), p);
}

#[test]
fn overlap_rule_is_half_open() {
    // Touching edges do not count as overlap: a player whose bottom edge is
    // exactly the floor's top edge is not corrected.
    let p = player(100, 900, 600, 600, 0, 0, true);
    let mut w = world_of(&[floor(0, 1500, 8000, 200), p]);
    systems::player_collision(&mut w);
    assert_eq!(w.get(1), p);

    // One tenth lower, it is.
    let mut w2 = world_of(&[floor(0, 1500, 8000, 200), player(100, 901, 600, 600, 0, 0, true)]);
    systems::player_collision(&mut w2);
    assert_eq!(w2.get(1).player, Some(Player { jumping: false }));
}

#[test]
fn bare_entity_survives_every_system() {
    let mut w = world_of(&[bare()]);
    let keys = InputState { up: true, down: true, left: true, right: true };
    systems::input(&mut w, &keys);
    systems::update_velocity(&mut w);
    systems::apply_velocity(&mut w);
    systems::player_collision(&mut w);
    assert_eq!(w.get(0), bare());
    assert_eq!(w.len(), 1);
}
