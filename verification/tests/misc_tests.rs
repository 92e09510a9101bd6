use oogaxi::animations::{advance_frame, select_copter_clip, CopterClip};
use oogaxi::assets::{all_sheets, Sheet};
use oogaxi::input::{consume_honk, input_map_for, Action, Control, HonkStep};
use oogaxi::meshes::{light_fan_indices, water_strip_indices};

#[test]
fn frames_advance_and_loop() {
    assert_eq!(advance_frame(0, 3, true), 1);
    assert_eq!(advance_frame(2, 3, true), 0);
    assert_eq!(advance_frame(2, 3, false), 2);
    assert_eq!(advance_frame(0, 1, true), 0);
    let mut f = 1;
    for _ in 0..4 {
        f = advance_frame(f, 4, true);
    }
    assert_eq!(f, 1);
}

#[test]
fn copter_clip_follows_physics() {
    assert_eq!(select_copter_clip(true, true), CopterClip::Idle);
    assert_eq!(select_copter_clip(false, true), CopterClip::Fly);
    assert_eq!(select_copter_clip(false, false), CopterClip::Fall);
    assert_eq!(CopterClip::Idle.tag(), "idle");
    assert_eq!(CopterClip::Fly.tag(), "fly");
    assert_eq!(CopterClip::Fall.tag(), "fall");
}

#[test]
fn sheets_and_paths() {
    assert_eq!(
        all_sheets(),
        vec![Sheet::Copter, Sheet::Signs, Sheet::Passenger, Sheet::Bubble]
    );
    assert_eq!(Sheet::Copter.path(), "sprites/copter42.sheet.json");
    assert_eq!(Sheet::Bubble.path(), "sprites/bubble.sheet.json");
}

#[test]
fn player_bindings() {
    let one = input_map_for(1);
    assert_eq!(one[0], (Action::Thrust, Control::ArrowUp));
    assert_eq!(one.len(), 10);
    let two = input_map_for(2);
    assert_eq!(two[0], (Action::Thrust, Control::KeyW));
    assert_eq!(two.len(), 9);
    // gamepad bindings are identical for every player
    assert_eq!(one[5..], two[4..]);
    for action in [Action::Thrust, Action::Move, Action::Honk, Action::Pause] {
        assert!(one.iter().any(|(a, _)| *a == action));
        assert!(two.iter().any(|(a, _)| *a == action));
    }
}

#[test]
fn fan_indices_close_the_fan() {
    assert_eq!(light_fan_indices(3), vec![0, 1, 2, 0, 2, 3, 0, 3, 1]);
    assert!(light_fan_indices(0).is_empty());
    let v = light_fan_indices(32);
    assert_eq!(v.len(), 96);
    assert!(v.iter().all(|&i| i <= 32));
}

#[test]
fn strip_indices_make_quads() {
    assert_eq!(water_strip_indices(2), vec![0, 1, 2, 2, 1, 3]);
    assert!(water_strip_indices(1).is_empty());
    let v = water_strip_indices(8);
    assert_eq!(v.len(), 42);
    assert!(v.iter().all(|&i| i < 16));
}

#[test]
fn honk_buffer_fires_once() {
    let first = consume_honk(true);
    assert_eq!(first, HonkStep { fires: true, armed: false });
    assert_eq!(consume_honk(first.armed), HonkStep { fires: false, armed: false });
}
