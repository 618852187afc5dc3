use fps_player::geometry::{isqrt_u64, Vec3};
use fps_player::player::{
    CameraFrame, InputEvent, KeyCode, NodeRef, Orientation, Player, DEFAULT_MOUSE_SENSITIVITY,
    DEFAULT_MOVEMENT_SPEED, PITCH_LIMIT,
};

fn motion(dx: i32, dy: i32) -> InputEvent {
    InputEvent::MouseMotion { dx, dy }
}

fn key(code: KeyCode, pressed: bool) -> InputEvent {
    InputEvent::KeyboardInput { code, pressed }
}

fn forward_frame() -> Option<CameraFrame> {
    Some(CameraFrame {
        look: Vec3::new(0, 0, -1_000_000),
        side: Vec3::new(1_000_000, 0, 0),
    })
}

#[test]
fn new_player_is_at_rest() {
    let p = Player::new();
    assert!(!p.move_forward() && !p.move_backward() && !p.move_left() && !p.move_right());
    assert_eq!(p.yaw(), 0);
    assert_eq!(p.pitch(), 0);
    assert_eq!(p.camera(), NodeRef { index: 0, generation: 0 });
    assert_eq!(p.mouse_sensitivity(), DEFAULT_MOUSE_SENSITIVITY);
    assert_eq!(p.movement_speed(), DEFAULT_MOVEMENT_SPEED);
    let d = Player::default();
    assert_eq!(d.yaw(), 0);
    assert_eq!(d.mouse_sensitivity(), 350);
}

#[test]
fn motion_turns_pitch_and_yaw() {
    let mut p = Player::new();
    p.on_os_event(&motion(10, 20));
    assert_eq!(p.pitch(), 7_000);
    assert_eq!(p.yaw(), -3_500);
}

#[test]
fn pitch_is_clamped_both_ways() {
    let mut p = Player::new();
    p.on_os_event(&motion(0, 1_000));
    assert_eq!(p.pitch(), PITCH_LIMIT);
    p.on_os_event(&motion(0, i32::MAX));
    assert_eq!(p.pitch(), 89_900);
    p.on_os_event(&motion(0, -1));
    assert_eq!(p.pitch(), 89_550);
    p.on_os_event(&motion(0, i32::MIN));
    assert_eq!(p.pitch(), -89_900);
    for dy in [5, -700, 300, 100_000, -3, 257] {
        p.on_os_event(&motion(0, dy));
        assert!(p.pitch() >= -89_900 && p.pitch() <= 89_900);
    }
}

#[test]
fn yaw_accumulates_without_bound() {
    let mut p = Player::new();
    p.on_os_event(&motion(3, 0));
    p.on_os_event(&motion(-10, 0));
    assert_eq!(p.yaw(), -350 * (3 + -10));
    for _ in 0..2_000 {
        p.on_os_event(&motion(-1_000, 0));
    }
    assert_eq!(p.yaw(), 2_450 + 2_000 * 350_000);
}

#[test]
fn custom_sensitivity_scales_turns() {
    let mut p = Player::new();
    p.set_mouse_sensitivity(1_000);
    p.on_os_event(&motion(2, -5));
    assert_eq!(p.yaw(), -2_000);
    assert_eq!(p.pitch(), -5_000);
}

#[test]
fn keys_set_and_clear_flags() {
    let mut p = Player::new();
    p.on_os_event(&key(KeyCode::KeyW, true));
    p.on_os_event(&key(KeyCode::KeyS, true));
    p.on_os_event(&key(KeyCode::KeyA, true));
    p.on_os_event(&key(KeyCode::KeyD, true));
    assert!(p.move_forward() && p.move_backward() && p.move_left() && p.move_right());
    p.on_os_event(&key(KeyCode::KeyW, true));
    p.on_os_event(&key(KeyCode::KeyW, false));
    assert!(!p.move_forward());
    p.on_os_event(&key(KeyCode::KeyA, false));
    assert!(!p.move_left());
    assert!(p.move_backward() && p.move_right());
}

#[test]
fn release_of_unpressed_key_leaves_it_clear() {
    let mut p = Player::new();
    p.on_os_event(&key(KeyCode::KeyD, false));
    assert!(!p.move_right());
    p.on_os_event(&key(KeyCode::KeyD, false));
    assert!(!p.move_right());
}

#[test]
fn other_input_is_ignored() {
    let mut p = Player::new();
    p.on_os_event(&motion(4, 4));
    p.on_os_event(&key(KeyCode::Other, true));
    p.on_os_event(&InputEvent::Other);
    assert!(!p.move_forward() && !p.move_backward() && !p.move_left() && !p.move_right());
    assert_eq!(p.yaw(), -1_400);
    assert_eq!(p.pitch(), 1_400);
}

#[test]
fn no_keys_stop_the_body_in_the_plane() {
    let p = Player::new();
    let r = p.on_update(forward_frame(), Some(Vec3::new(5_000_000, -9_810_000, 7)), 16_667);
    assert_eq!(r.linear_velocity, Some(Vec3::new(0, -9_810_000, 0)));
}

#[test]
fn opposing_keys_cancel() {
    let mut p = Player::new();
    p.on_os_event(&key(KeyCode::KeyW, true));
    p.on_os_event(&key(KeyCode::KeyS, true));
    let r = p.on_update(forward_frame(), Some(Vec3::new(3, 2, 1)), 16_667);
    assert_eq!(r.linear_velocity, Some(Vec3::new(0, 2, 0)));
    p.on_os_event(&key(KeyCode::KeyA, true));
    p.on_os_event(&key(KeyCode::KeyD, true));
    let r = p.on_update(forward_frame(), Some(Vec3::new(3, 2, 1)), 16_667);
    assert_eq!(r.linear_velocity, Some(Vec3::new(0, 2, 0)));
}

#[test]
fn forward_at_sixty_hertz_moves_four_units() {
    let mut p = Player::new();
    p.on_os_event(&key(KeyCode::KeyW, true));
    // One sixtieth of a second, to the microsecond: 240 * 16_667 micro-units.
    let r = p.on_update(forward_frame(), Some(Vec3::new(0, -1_500_000, 0)), 16_667);
    assert_eq!(r.linear_velocity, Some(Vec3::new(0, -1_500_000, -4_000_080)));
    let r = p.on_update(forward_frame(), Some(Vec3::new(0, 0, 0)), 50_000);
    assert_eq!(r.linear_velocity, Some(Vec3::new(0, 0, -12_000_000)));
}

#[test]
fn backward_and_right_reverse_the_vectors() {
    let mut p = Player::new();
    p.on_os_event(&key(KeyCode::KeyS, true));
    let r = p.on_update(forward_frame(), Some(Vec3::new(0, 0, 0)), 50_000);
    assert_eq!(r.linear_velocity, Some(Vec3::new(0, 0, 12_000_000)));
    p.on_os_event(&key(KeyCode::KeyS, false));
    p.on_os_event(&key(KeyCode::KeyD, true));
    let r = p.on_update(forward_frame(), Some(Vec3::new(0, 0, 0)), 50_000);
    assert_eq!(r.linear_velocity, Some(Vec3::new(-12_000_000, 0, 0)));
}

#[test]
fn diagonal_is_normalised() {
    let mut p = Player::new();
    p.on_os_event(&key(KeyCode::KeyW, true));
    p.on_os_event(&key(KeyCode::KeyA, true));
    let r = p.on_update(forward_frame(), Some(Vec3::new(0, 0, 0)), 50_000);
    assert_eq!(r.linear_velocity, Some(Vec3::new(8_485_284, 0, -8_485_284)));
}

#[test]
fn vertical_part_of_look_is_dropped() {
    let mut p = Player::new();
    p.on_os_event(&key(KeyCode::KeyW, true));
    let frame = CameraFrame {
        look: Vec3::new(0, 600_000, -800_000),
        side: Vec3::new(1_000_000, 0, 0),
    };
    let r = p.on_update(Some(frame), Some(Vec3::new(0, 11, 0)), 50_000);
    assert_eq!(r.linear_velocity, Some(Vec3::new(0, 11, -9_600_000)));
}

#[test]
fn unresolved_camera_skips_rotation_and_stops() {
    let mut p = Player::new();
    p.on_os_event(&key(KeyCode::KeyW, true));
    p.on_os_event(&motion(7, 7));
    let r = p.on_update(None, Some(Vec3::new(1_000, 20, 3_000)), 16_667);
    assert_eq!(r.camera_rotation, None);
    assert_eq!(r.linear_velocity, Some(Vec3::new(0, 20, 0)));
}

#[test]
fn body_that_is_not_rigid_still_turns_camera() {
    let mut p = Player::new();
    p.on_os_event(&key(KeyCode::KeyW, true));
    p.on_os_event(&motion(-2, 3));
    let r = p.on_update(forward_frame(), None, 16_667);
    assert_eq!(r.camera_rotation, Some(Orientation { yaw: 700, pitch: 1_050 }));
    assert_eq!(r.linear_velocity, None);
}

#[test]
fn zero_elapsed_time_gives_zero_speed() {
    let mut p = Player::new();
    p.on_os_event(&key(KeyCode::KeyW, true));
    let r = p.on_update(forward_frame(), Some(Vec3::new(1, 2, 3)), 0);
    assert_eq!(r.linear_velocity, Some(Vec3::new(0, 2, 0)));
}

#[test]
fn limits_on_yaw_and_time_are_reported() {
    let mut p = Player::new();
    assert!(p.accepts_event(&motion(i32::MIN, 0)));
    assert!(p.accepts_event(&key(KeyCode::KeyW, true)));
    p.set_mouse_sensitivity(u32::MAX);
    assert!(p.accepts_event(&motion(i32::MAX, i32::MAX)));
    assert!(p.accepts_tick(u32::MAX));
    p.set_movement_speed(u32::MAX);
    assert!(!p.accepts_tick(u32::MAX));
    assert!(p.accepts_tick(1_000_000));
    p.set_movement_speed(0);
    assert_eq!(p.movement_speed(), 0);
}

#[test]
fn camera_reference_is_kept() {
    let mut p = Player::new();
    p.set_camera(NodeRef { index: 4, generation: 9 });
    assert_eq!(p.camera(), NodeRef { index: 4, generation: 9 });
}

#[test]
fn integer_root_rounds_down() {
    assert_eq!(isqrt_u64(0), 0);
    assert_eq!(isqrt_u64(1), 1);
    assert_eq!(isqrt_u64(15), 3);
    assert_eq!(isqrt_u64(16), 4);
    assert_eq!(isqrt_u64(2_000_000_000_000), 1_414_213);
    assert_eq!(isqrt_u64(16_000_000_000_000), 4_000_000);
}

#[test]
fn state_round_trips() {
    let mut p = Player::new();
    p.on_os_event(&key(KeyCode::KeyA, true));
    p.on_os_event(&motion(-9, -40));
    p.set_camera(NodeRef { index: 2, generation: 1 });
    let s = p.state();
    assert_eq!(s.yaw, 3_150);
    assert_eq!(s.pitch, -14_000);
    let q = Player::restore(s).unwrap();
    assert_eq!(q.state(), s);
    let mut bad = s;
    bad.pitch = 90_000;
    assert!(Player::restore(bad).is_none());
    bad.pitch = -89_900;
    assert_eq!(Player::restore(bad).unwrap().pitch(), -89_900);
}

#[test]
fn integer_root_of_largest_input() {
    assert_eq!(isqrt_u64(u64::MAX), 4_294_967_295);
    assert_eq!(isqrt_u64(4_294_967_295 * 4_294_967_295), 4_294_967_295);
    assert_eq!(isqrt_u64(4_294_967_295 * 4_294_967_295 - 1), 4_294_967_294);
}
