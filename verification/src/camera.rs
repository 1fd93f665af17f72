//! Free-fly camera control: which keys steer, and how far a frame moves the camera.

use bevy::input::keyboard::KeyCode;
use bevy::input::ButtonInput;
use std::hash::Hash;
use vstd::prelude::*;

verus! {

/// The keyboard state that the windowing layer maintains.
#[verifier::external_type_specification]
#[verifier::external_body]
#[verifier::reject_recursive_types(T)]
pub struct ExButtonInput<T: Copy + Eq + Hash + Send + Sync + 'static>(ButtonInput<T>);

/// A physical key of the keyboard.
#[verifier::external_type_specification]
#[verifier::external_body]
pub struct ExKeyCode(KeyCode);

/// The keys that steer the camera.
#[derive(Clone, Copy, Debug, PartialEq, Eq, Structural)]
pub enum Key {
    KeyW,
    KeyS,
    KeyA,
    KeyD,
    Space,
    ShiftLeft,
    ArrowLeft,
    ArrowRight,
    ArrowUp,
    ArrowDown,
}

/// The steering keys that are held down in a keyboard state.
pub uninterp spec fn held_keys(keyboard: ButtonInput<KeyCode>) -> Set<Key>;

/// Looks a steering key up with `ButtonInput::pressed`, which answers whether the
/// key is among those currently held down.
#[verifier::external_body]
fn is_held(keyboard: &ButtonInput<KeyCode>, key: Key) -> (held: bool)
    ensures
        held == held_keys(*keyboard).contains(key),
{
    keyboard.pressed(match key {
        Key::KeyW => KeyCode::KeyW,
        Key::KeyS => KeyCode::KeyS,
        Key::KeyA => KeyCode::KeyA,
        Key::KeyD => KeyCode::KeyD,
        Key::Space => KeyCode::Space,
        Key::ShiftLeft => KeyCode::ShiftLeft,
        Key::ArrowLeft => KeyCode::ArrowLeft,
        Key::ArrowRight => KeyCode::ArrowRight,
        Key::ArrowUp => KeyCode::ArrowUp,
        Key::ArrowDown => KeyCode::ArrowDown,
    })
}

/// Which of the camera's controls are held during a frame.
#[derive(Clone, Copy, Debug, PartialEq, Eq, Structural)]
pub struct CameraInput {
    pub forward: bool,
    pub backward: bool,
    pub strafe_left: bool,
    pub strafe_right: bool,
    pub ascend: bool,
    pub descend: bool,
    pub yaw_left: bool,
    pub yaw_right: bool,
    pub pitch_up: bool,
    pub pitch_down: bool,
}

/// How fast the camera moves and turns.
#[derive(Clone, Copy, Debug, PartialEq, Eq, Structural)]
pub struct CameraRig {
    /// Distance covered per unit of time while a movement control is held.
    pub move_speed: i32,
    /// Angle turned per unit of time while a rotation control is held.
    pub rotate_speed: i32,
}

/// One motion of the camera. A frame yields three, to be carried out in order.
#[derive(Clone, Copy, Debug, PartialEq, Eq, Structural)]
pub enum CameraAction {
    /// Shift the camera by `forward` along the direction it faces, by `right` along
    /// its lateral axis and by `up` along the world's vertical axis.
    Translate { forward: i64, right: i64, up: i64 },
    /// Turn the camera about the world's vertical axis; a positive angle turns left.
    Yaw(i64),
    /// Turn the camera about its own lateral axis as it lies after the yaw; a
    /// positive angle raises the direction it faces.
    Pitch(i64),
}

/// The controls bound to the keys: W and S move forward and backward, A and D
/// strafe, Space and left Shift climb and sink, the arrows turn.
pub open spec fn bound_controls(held: Set<Key>) -> CameraInput {
    CameraInput {
        forward: held.contains(Key::KeyW),
        backward: held.contains(Key::KeyS),
        strafe_left: held.contains(Key::KeyA),
        strafe_right: held.contains(Key::KeyD),
        ascend: held.contains(Key::Space),
        descend: held.contains(Key::ShiftLeft),
        yaw_left: held.contains(Key::ArrowLeft),
        yaw_right: held.contains(Key::ArrowRight),
        pitch_up: held.contains(Key::ArrowUp),
        pitch_down: held.contains(Key::ArrowDown),
    }
}

/// Net direction along an axis with two opposed controls: 1, 0 or -1.
pub open spec fn net(positive: bool, negative: bool) -> int {
    (if positive { 1int } else { 0int }) - (if negative { 1int } else { 0int })
}

/// Signed amount accumulated along an axis during `dt`: each held control
/// contributes `speed * dt`, with its sign.
pub open spec fn travel(positive: bool, negative: bool, speed: int, dt: int) -> int {
    net(positive, negative) * (speed * dt)
}

/// Snapshot of the camera's controls in a keyboard state.
pub fn read_input(keyboard: &ButtonInput<KeyCode>) -> (input: CameraInput)
    ensures
        input == bound_controls(held_keys(*keyboard)),
{
    CameraInput {
        forward: is_held(keyboard, Key::KeyW),
        backward: is_held(keyboard, Key::KeyS),
        strafe_left: is_held(keyboard, Key::KeyA),
        strafe_right: is_held(keyboard, Key::KeyD),
        ascend: is_held(keyboard, Key::Space),
        descend: is_held(keyboard, Key::ShiftLeft),
        yaw_left: is_held(keyboard, Key::ArrowLeft),
        yaw_right: is_held(keyboard, Key::ArrowRight),
        pitch_up: is_held(keyboard, Key::ArrowUp),
        pitch_down: is_held(keyboard, Key::ArrowDown),
    }
}

fn signed_travel(positive: bool, negative: bool, speed: i32, dt: u32) -> (amount: i64)
    ensures
        amount == travel(positive, negative, speed as int, dt as int),
{
    assert(-0x8000_0000_0000_0000 < speed * dt < 0x8000_0000_0000_0000) by (nonlinear_arith)
        requires
            -0x8000_0000 <= speed < 0x8000_0000,
            0 <= dt < 0x1_0000_0000;
    let step: i64 = (speed as i64) * (dt as i64);
    assert(net(positive, negative) * (speed * dt) == if positive == negative {
        0
    } else if positive {
        speed * dt
    } else {
        -(speed * dt)
    }) by (nonlinear_arith)
        requires
            -1 <= net(positive, negative) <= 1,
            net(positive, negative) == 0 <==> positive == negative,
            net(positive, negative) == 1 <==> positive && !negative;
    if positive == negative {
        0
    } else if positive {
        step
    } else {
        -step
    }
}

impl CameraRig {
    /// The camera's motions for a frame of length `dt`.
    ///
    /// Held movement controls each add `move_speed * dt` along their axis, and
    /// opposed controls cancel; nothing is normalised, so a diagonal move is
    /// longer than a straight one. Held rotation controls each add
    /// `rotate_speed * dt`: yaw-left and pitch-down count positive, yaw-right and
    /// pitch-up negative. The motions come in the order in which they apply: the
    /// translation in the frame the camera has before it turns, then the yaw about
    /// the world's vertical axis, then the pitch about the camera's own lateral
    /// axis.
    pub fn integrate(&self, input: &CameraInput, dt: u32) -> (actions: Vec<CameraAction>)
        ensures
            actions@.len() == 3,
            actions@[0] matches CameraAction::Translate { forward, right, up }
                && forward == travel(input.forward, input.backward, self.move_speed as int, dt as int)
                && right == travel(input.strafe_right, input.strafe_left, self.move_speed as int, dt as int)
                && up == travel(input.ascend, input.descend, self.move_speed as int, dt as int),
            actions@[1] matches CameraAction::Yaw(angle)
                && angle == travel(input.yaw_left, input.yaw_right, self.rotate_speed as int, dt as int),
            actions@[2] matches CameraAction::Pitch(angle)
                && angle == travel(input.pitch_down, input.pitch_up, self.rotate_speed as int, dt as int),
    {
        let forward = signed_travel(input.forward, input.backward, self.move_speed, dt);
        let right = signed_travel(input.strafe_right, input.strafe_left, self.move_speed, dt);
        let up = signed_travel(input.ascend, input.descend, self.move_speed, dt);
        let yaw = signed_travel(input.yaw_left, input.yaw_right, self.rotate_speed, dt);
        let pitch = signed_travel(input.pitch_down, input.pitch_up, self.rotate_speed, dt);
        vec![
            CameraAction::Translate { forward, right, up },
            CameraAction::Yaw(yaw),
            CameraAction::Pitch(pitch),
        ]
    }
}

} // verus!
