use bevy::input::keyboard::KeyCode;
use bevy::input::ButtonInput;
use bevy::math::{Quat, Vec3};
use bevy::transform::components::Transform;
use orbit_sim::camera::{read_input, CameraAction, CameraInput, CameraRig};

/// Rig speeds are in whole units and radians per second and frame times in
/// microseconds, so that the library's results are in millionths.
const RIG: CameraRig = CameraRig { move_speed: 5, rotate_speed: 1 };
const SECOND: u32 = 1_000_000;

fn idle() -> CameraInput {
    CameraInput {
        forward: false,
        backward: false,
        strafe_left: false,
        strafe_right: false,
        ascend: false,
        descend: false,
        yaw_left: false,
        yaw_right: false,
        pitch_up: false,
        pitch_down: false,
    }
}

fn scaled(amount: i64) -> f32 {
    (amount as f64 * 1e-6) as f32
}

fn perform(transform: &mut Transform, actions: &[CameraAction]) {
    for action in actions {
        match *action {
            CameraAction::Translate { forward, right, up } => {
                let shift = transform.forward() * scaled(forward)
                    + transform.right() * scaled(right)
                    + Vec3::Y * scaled(up);
                transform.translation += shift;
            }
            CameraAction::Yaw(angle) => transform.rotate_y(scaled(angle)),
            CameraAction::Pitch(angle) => transform.rotate_local_x(scaled(angle)),
        }
    }
}

#[test]
fn idle_controls_move_nothing() {
    assert_eq!(
        RIG.integrate(&idle(), SECOND),
        vec![
            CameraAction::Translate { forward: 0, right: 0, up: 0 },
            CameraAction::Yaw(0),
            CameraAction::Pitch(0),
        ]
    );
}

#[test]
fn no_time_moves_nothing() {
    let all = CameraInput { forward: true, strafe_right: true, ascend: true, yaw_left: true, pitch_down: true, ..idle() };
    assert_eq!(
        RIG.integrate(&all, 0),
        vec![
            CameraAction::Translate { forward: 0, right: 0, up: 0 },
            CameraAction::Yaw(0),
            CameraAction::Pitch(0),
        ]
    );
}

#[test]
fn forward_for_one_second_at_speed_five() {
    let input = CameraInput { forward: true, ..idle() };
    let actions = RIG.integrate(&input, SECOND);
    assert_eq!(actions[0], CameraAction::Translate { forward: 5_000_000, right: 0, up: 0 });
    assert_eq!(actions[1], CameraAction::Yaw(0));
    assert_eq!(actions[2], CameraAction::Pitch(0));
    // A camera at the origin that faces -Z ends five units along -Z.
    let mut transform = Transform::IDENTITY;
    let forward = *transform.forward();
    assert_eq!(forward, Vec3::new(0.0, 0.0, -1.0));
    perform(&mut transform, &actions);
    assert!(transform.translation.distance(forward * 5.0) < 1e-6);
    assert_eq!(transform.rotation, Quat::IDENTITY);
}

#[test]
fn each_movement_control_has_its_axis_and_sign() {
    let t = |input: CameraInput| RIG.integrate(&input, 1000)[0];
    assert_eq!(t(CameraInput { forward: true, ..idle() }), CameraAction::Translate { forward: 5000, right: 0, up: 0 });
    assert_eq!(t(CameraInput { backward: true, ..idle() }), CameraAction::Translate { forward: -5000, right: 0, up: 0 });
    assert_eq!(t(CameraInput { strafe_right: true, ..idle() }), CameraAction::Translate { forward: 0, right: 5000, up: 0 });
    assert_eq!(t(CameraInput { strafe_left: true, ..idle() }), CameraAction::Translate { forward: 0, right: -5000, up: 0 });
    assert_eq!(t(CameraInput { ascend: true, ..idle() }), CameraAction::Translate { forward: 0, right: 0, up: 5000 });
    assert_eq!(t(CameraInput { descend: true, ..idle() }), CameraAction::Translate { forward: 0, right: 0, up: -5000 });
}

#[test]
fn each_rotation_control_has_its_axis_and_sign() {
    let r = |input: CameraInput| {
        let actions = RIG.integrate(&input, 250);
        (actions[0], actions[1], actions[2])
    };
    let still = CameraAction::Translate { forward: 0, right: 0, up: 0 };
    assert_eq!(r(CameraInput { yaw_left: true, ..idle() }), (still, CameraAction::Yaw(250), CameraAction::Pitch(0)));
    assert_eq!(r(CameraInput { yaw_right: true, ..idle() }), (still, CameraAction::Yaw(-250), CameraAction::Pitch(0)));
    assert_eq!(r(CameraInput { pitch_down: true, ..idle() }), (still, CameraAction::Yaw(0), CameraAction::Pitch(250)));
    assert_eq!(r(CameraInput { pitch_up: true, ..idle() }), (still, CameraAction::Yaw(0), CameraAction::Pitch(-250)));
}

#[test]
fn opposed_controls_cancel() {
    let input = CameraInput {
        forward: true,
        backward: true,
        strafe_left: true,
        strafe_right: true,
        ascend: true,
        descend: true,
        yaw_left: true,
        yaw_right: true,
        pitch_up: true,
        pitch_down: true,
    };
    assert_eq!(RIG.integrate(&input, SECOND), RIG.integrate(&idle(), SECOND));
}

#[test]
fn diagonal_moves_are_not_normalised() {
    let input = CameraInput { forward: true, strafe_right: true, ..idle() };
    let actions = RIG.integrate(&input, SECOND);
    assert_eq!(actions[0], CameraAction::Translate { forward: 5_000_000, right: 5_000_000, up: 0 });
    let mut transform = Transform::IDENTITY;
    perform(&mut transform, &actions);
    assert!(transform.translation.distance(Vec3::new(5.0, 0.0, -5.0)) < 1e-6);
    assert!(transform.translation.length() > 7.0);
}

#[test]
fn extreme_speed_and_time_are_exact() {
    let rig = CameraRig { move_speed: i32::MIN, rotate_speed: i32::MAX };
    let input = CameraInput { backward: true, ascend: true, yaw_right: true, pitch_down: true, ..idle() };
    let far: i64 = 2_147_483_648 * 4_294_967_295;
    let turn: i64 = 2_147_483_647 * 4_294_967_295;
    assert_eq!(
        rig.integrate(&input, u32::MAX),
        vec![
            CameraAction::Translate { forward: far, right: 0, up: -far },
            CameraAction::Yaw(-turn),
            CameraAction::Pitch(turn),
        ]
    );
}

#[test]
fn yaw_about_the_world_then_pitch_about_the_camera() {
    let input = CameraInput { yaw_right: true, pitch_up: true, ..idle() };
    let actions = RIG.integrate(&input, SECOND);
    assert_eq!(
        actions,
        vec![
            CameraAction::Translate { forward: 0, right: 0, up: 0 },
            CameraAction::Yaw(-1_000_000),
            CameraAction::Pitch(-1_000_000),
        ]
    );
    let mut transform = Transform::IDENTITY;
    perform(&mut transform, &actions);
    // Yaw first, about the world's vertical; then pitch in the frame that the yaw left.
    let yaw_then_pitch = Quat::from_rotation_y(-1.0) * Quat::from_rotation_x(-1.0);
    assert!(transform.rotation.angle_between(yaw_then_pitch) < 1e-5);
    let mut by_hand = Transform::IDENTITY;
    by_hand.rotate_y(-1.0);
    let lateral = by_hand.right();
    by_hand.rotate_axis(lateral, -1.0);
    assert!(transform.rotation.angle_between(by_hand.rotation) < 1e-5);
    // The other order gives another orientation.
    let pitch_then_yaw = Quat::from_rotation_x(-1.0) * Quat::from_rotation_y(-1.0);
    assert!(transform.rotation.angle_between(pitch_then_yaw) > 0.1);
    assert_eq!(transform.translation, Vec3::ZERO);
}

#[test]
fn translation_uses_the_frame_before_the_turn() {
    let input = CameraInput { forward: true, yaw_left: true, ..idle() };
    let mut transform = Transform::IDENTITY;
    perform(&mut transform, &RIG.integrate(&input, SECOND));
    assert!(transform.translation.distance(Vec3::new(0.0, 0.0, -5.0)) < 1e-6);
    assert!(transform.rotation.angle_between(Quat::from_rotation_y(1.0)) < 1e-5);
}

#[test]
fn keys_are_bound_to_their_controls() {
    let bindings = [
        (KeyCode::KeyW, CameraInput { forward: true, ..idle() }),
        (KeyCode::KeyS, CameraInput { backward: true, ..idle() }),
        (KeyCode::KeyA, CameraInput { strafe_left: true, ..idle() }),
        (KeyCode::KeyD, CameraInput { strafe_right: true, ..idle() }),
        (KeyCode::Space, CameraInput { ascend: true, ..idle() }),
        (KeyCode::ShiftLeft, CameraInput { descend: true, ..idle() }),
        (KeyCode::ArrowLeft, CameraInput { yaw_left: true, ..idle() }),
        (KeyCode::ArrowRight, CameraInput { yaw_right: true, ..idle() }),
        (KeyCode::ArrowUp, CameraInput { pitch_up: true, ..idle() }),
        (KeyCode::ArrowDown, CameraInput { pitch_down: true, ..idle() }),
    ];
    for (key, expected) in bindings {
        let mut keyboard = ButtonInput::<KeyCode>::default();
        keyboard.press(key);
        assert_eq!(read_input(&keyboard), expected);
    }
}

#[test]
fn released_and_foreign_keys_hold_nothing() {
    let mut keyboard = ButtonInput::<KeyCode>::default();
    assert_eq!(read_input(&keyboard), idle());
    keyboard.press(KeyCode::KeyW);
    keyboard.press(KeyCode::KeyQ);
    keyboard.press(KeyCode::ShiftRight);
    keyboard.release(KeyCode::KeyW);
    assert_eq!(read_input(&keyboard), idle());
}

#[test]
fn several_keys_at_once() {
    let mut keyboard = ButtonInput::<KeyCode>::default();
    keyboard.press(KeyCode::KeyW);
    keyboard.press(KeyCode::KeyD);
    keyboard.press(KeyCode::ArrowUp);
    let input = read_input(&keyboard);
    assert_eq!(input, CameraInput { forward: true, strafe_right: true, pitch_up: true, ..idle() });
    assert_eq!(
        RIG.integrate(&input, 2000),
        vec![
            CameraAction::Translate { forward: 10_000, right: 10_000, up: 0 },
            CameraAction::Yaw(0),
            CameraAction::Pitch(-2000),
        ]
    );
}
