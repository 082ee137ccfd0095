use vstd::prelude::*;

verus! {

/// Which of the keys the scene reacts to are held this frame. The windowing
/// shell fills this from its own keyboard state once per frame.
#[derive(Debug, Clone, Copy, PartialEq, Eq, Structural, Default)]
pub struct InputSnapshot {
    pub key_w: bool,
    pub key_s: bool,
    pub key_a: bool,
    pub key_d: bool,
    pub key_q: bool,
    pub key_e: bool,
    pub arrow_left: bool,
    pub arrow_right: bool,
    pub arrow_up: bool,
    pub arrow_down: bool,
}

/// One axis of camera motion for a frame: 1 when only the positive key of the
/// pair is held, -1 when only the negative one is, 0 otherwise.
pub open spec fn axis_of(positive: bool, negative: bool) -> int {
    (if positive { 1int } else { 0int }) - (if negative { 1int } else { 0int })
}

/// The camera motion one frame of input asks for, in whole steps per axis.
/// The shell scales translation axes by `move_speed * dt` and rotation axes
/// by `rotation_speed * dt` before applying them to the camera.
#[derive(Debug, Clone, Copy, PartialEq, Eq, Structural)]
pub struct CameraMotion {
    pub forward: i8,
    pub right: i8,
    pub up: i8,
    pub yaw: i8,
    pub pitch: i8,
}

/// Decide the camera motion for one frame of input: W/S drive the forward
/// axis, D/A the right axis, E/Q the up axis, the left/right arrows yaw
/// (left positive), and the up/down arrows pitch (up positive). Opposing
/// keys held together cancel.
pub fn camera_motion(input: &InputSnapshot) -> (m: CameraMotion)
    ensures
        m.forward == axis_of(input.key_w, input.key_s),
        m.right == axis_of(input.key_d, input.key_a),
        m.up == axis_of(input.key_e, input.key_q),
        m.yaw == axis_of(input.arrow_left, input.arrow_right),
        m.pitch == axis_of(input.arrow_up, input.arrow_down),
{
    CameraMotion {
        forward: axis(input.key_w, input.key_s),
        right: axis(input.key_d, input.key_a),
        up: axis(input.key_e, input.key_q),
        yaw: axis(input.arrow_left, input.arrow_right),
        pitch: axis(input.arrow_up, input.arrow_down),
    }
}

/// One axis from its two keys.
fn axis(positive: bool, negative: bool) -> (r: i8)
    ensures
        r == axis_of(positive, negative),
{
    let p: i8 = if positive { 1 } else { 0 };
    let n: i8 = if negative { 1 } else { 0 };
    p - n
}

} // verus!
