//! Concrete checks of the movement-and-placement model.

use grove::locomotion::confine_player_movement;
use grove::locomotion::movement_direction;
use grove::locomotion::player_movement;
use grove::locomotion::spawn_player;
use grove::locomotion::PLAYER_SCALE_MILLI;
use grove::placement::plant_tree_logic;
use grove::placement::TREE_SCALE_MILLI;
use grove::InputSnapshot;
use grove::Player;
use grove::Position;
use grove::Viewport;
use grove::World;

fn snap(left: bool, right: bool, up: bool, down: bool, trigger: bool) -> InputSnapshot {
    InputSnapshot {
        arrow_left: left,
        arrow_right: right,
        arrow_up: up,
        arrow_down: down,
        key_a: false,
        key_d: false,
        key_w: false,
        key_s: false,
        trigger_just_pressed: trigger,
    }
}

fn wasd_snap(left: bool, right: bool, up: bool, down: bool) -> InputSnapshot {
    InputSnapshot {
        arrow_left: false,
        arrow_right: false,
        arrow_up: false,
        arrow_down: false,
        key_a: left,
        key_d: right,
        key_w: up,
        key_s: down,
        trigger_just_pressed: false,
    }
}

fn player_at(x: i64, y: i64) -> Player {
    Player { position: Position { x, y }, scale_milli: PLAYER_SCALE_MILLI }
}

#[test]
fn direction_is_sum_of_unit_contributions() {
    for bits in 0u32..16 {
        let left = bits & 1 != 0;
        let right = bits & 2 != 0;
        let up = bits & 4 != 0;
        let down = bits & 8 != 0;
        let s = snap(left, right, up, down, false);
        let (dx, dy) = movement_direction(&s);
        let expect_x = (right as i64) - (left as i64);
        let expect_y = (up as i64) - (down as i64);
        assert_eq!((dx, dy), (expect_x, expect_y));
    }
}

#[test]
fn wasd_keys_steer_like_the_arrows() {
    for bits in 0u32..16 {
        let left = bits & 1 != 0;
        let right = bits & 2 != 0;
        let up = bits & 4 != 0;
        let down = bits & 8 != 0;
        let arrows = movement_direction(&snap(left, right, up, down, false));
        let wasd = movement_direction(&wasd_snap(left, right, up, down));
        assert_eq!(arrows, wasd);
    }
}

#[test]
fn zero_elapsed_time_leaves_position_unchanged() {
    let mut p = player_at(12_345, -6_789);
    player_movement(&mut p, &snap(false, true, true, false, false), 0);
    assert_eq!(p.position, Position { x: 12_345, y: -6_789 });
}

#[test]
fn no_keys_held_leaves_position_unchanged() {
    let mut p = player_at(42, 43);
    player_movement(&mut p, &snap(false, false, false, false, false), 250);
    assert_eq!(p.position, Position { x: 42, y: 43 });
}

#[test]
fn opposing_keys_cancel() {
    let mut p = player_at(0, 0);
    player_movement(&mut p, &snap(true, true, true, true, false), 1000);
    assert_eq!(p.position, Position { x: 0, y: 0 });
}

#[test]
fn axis_aligned_speed_is_five_hundred_units_per_second() {
    let mut p = player_at(0, 0);
    player_movement(&mut p, &snap(false, true, false, false, false), 1000);
    assert_eq!(p.position, Position { x: 500_000, y: 0 });

    let mut q = player_at(0, 0);
    player_movement(&mut q, &snap(false, false, false, true, false), 200);
    assert_eq!(q.position, Position { x: 0, y: -100_000 });
}

#[test]
fn one_second_diagonal_from_origin() {
    // Holding right and up for one second at speed 500 lands near
    // (353.55, 353.55) world units: 500 / sqrt(2) per axis.
    let mut p = spawn_player();
    assert_eq!(p.position, Position { x: 0, y: 0 });
    player_movement(&mut p, &snap(false, true, true, false, false), 1000);
    assert_eq!(p.position, Position { x: 353_553, y: 353_553 });
}

#[test]
fn clamp_pulls_an_outlying_position_to_the_edge() {
    // Viewport 800 x 600 world units, actor half-size zero: x is clamped
    // from 500 to 400 world units.
    let mut p = player_at(500_000, 0);
    confine_player_movement(&mut p, Some(Viewport { width: 800_000, height: 600_000 }));
    assert_eq!(p.position, Position { x: 400_000, y: 0 });
}

#[test]
fn clamp_bounds_both_axes() {
    let v = Viewport { width: 10_000, height: 7_000 };
    let mut below = player_at(-9_000, -9_000);
    confine_player_movement(&mut below, Some(v));
    assert_eq!(below.position, Position { x: -5_000, y: -3_500 });

    let mut above = player_at(9_000, 9_000);
    confine_player_movement(&mut above, Some(v));
    assert_eq!(above.position, Position { x: 5_000, y: 3_500 });

    let mut inside = player_at(1_234, -2_345);
    confine_player_movement(&mut inside, Some(v));
    assert_eq!(inside.position, Position { x: 1_234, y: -2_345 });
}

#[test]
fn missing_viewport_skips_the_clamp() {
    let mut p = player_at(9_999_999, -9_999_999);
    confine_player_movement(&mut p, None);
    assert_eq!(p.position, Position { x: 9_999_999, y: -9_999_999 });
}

#[test]
fn spawned_player_is_at_origin_at_its_scale() {
    let p = spawn_player();
    assert_eq!(p.position, Position { x: 0, y: 0 });
    assert_eq!(p.scale_milli, PLAYER_SCALE_MILLI);
    assert_ne!(PLAYER_SCALE_MILLI, TREE_SCALE_MILLI);
}

#[test]
fn planting_needs_the_rising_edge_and_an_actor() {
    let p = player_at(7, 8);
    assert!(plant_tree_logic(&snap(false, false, false, false, false), Some(&p)).is_none());
    assert!(plant_tree_logic(&snap(false, false, false, false, true), None).is_none());
    let t = plant_tree_logic(&snap(false, false, false, false, true), Some(&p)).unwrap();
    assert_eq!(t.position(), Position { x: 7, y: 8 });
    assert_eq!(t.scale_milli(), TREE_SCALE_MILLI);
}

#[test]
fn planted_tree_keeps_its_position_when_the_actor_moves() {
    let mut w = World::new();
    w.player = Some(player_at(100_000, 50_000));

    w.tick(&snap(false, false, false, false, true), 0, None);
    assert_eq!(w.trees.len(), 1);
    assert_eq!(w.trees[0].position(), Position { x: 100_000, y: 50_000 });

    w.tick(&snap(false, true, false, false, false), 200, None);
    let p = w.player.unwrap();
    assert_eq!(p.position, Position { x: 200_000, y: 50_000 });
    assert_eq!(w.trees.len(), 1);
    assert_eq!(w.trees[0].position(), Position { x: 100_000, y: 50_000 });
}

#[test]
fn one_continuous_hold_plants_exactly_one_tree() {
    let mut w = World::new();
    w.player = Some(player_at(0, 0));
    // The trigger key is held for four frames; the engine reports the
    // rising edge only on the first of them.
    let held = [true, true, true, true];
    let mut prev = false;
    for h in held {
        let just_pressed = h && !prev;
        w.tick(&snap(false, false, false, false, just_pressed), 16, None);
        prev = h;
    }
    assert_eq!(w.trees.len(), 1);
}

#[test]
fn rapid_presses_plant_overlapping_trees() {
    let mut w = World::new();
    w.player = Some(player_at(5, 5));
    w.tick(&snap(false, false, false, false, true), 0, None);
    w.tick(&snap(false, false, false, false, true), 0, None);
    assert_eq!(w.trees.len(), 2);
    assert_eq!(w.trees[0].position(), w.trees[1].position());
}

#[test]
fn frame_without_an_actor_changes_nothing() {
    let mut w = World::new();
    w.tick(&snap(true, false, true, false, true), 1000, Some(Viewport { width: 100, height: 100 }));
    assert!(w.player.is_none());
    assert_eq!(w.trees.len(), 0);
}

#[test]
fn tick_moves_then_clamps_then_plants() {
    // One frame: a one-second move right from the origin reaches 500 world
    // units, the 800-wide viewport clamps it to 400, and the tree is
    // planted at the clamped position.
    let mut w = World::new();
    w.player = Some(player_at(0, 0));
    let v = Viewport { width: 800_000, height: 600_000 };
    w.tick(&snap(false, true, false, false, true), 1000, Some(v));
    let p = w.player.unwrap();
    assert_eq!(p.position, Position { x: 400_000, y: 0 });
    assert_eq!(w.trees.len(), 1);
    assert_eq!(w.trees[0].position(), Position { x: 400_000, y: 0 });
}
