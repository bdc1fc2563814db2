//! Keyboard steering of the player.
//!
//! Once per frame, before the integrator runs, the pressed state of the
//! movement keys is folded into the player's motion state: holding forward
//! or backward requests a fixed acceleration, releasing both bleeds the
//! built-up speed and acceleration off again through a passive
//! counter-request, the fast modifier gates the upper half of the speed
//! range, and the turn keys yield a yaw rotation proportional to the frame
//! time.  The requested acceleration is clamped to the actor's own limit.

use vstd::prelude::*;

use crate::fixed::{clamp_i64, clamped, per_second, scale_per_second};
use crate::fixed::{DT_LIMIT, SPEED_LIMIT};
use crate::motion::MotionState;

verus! {

/// Turn rate while a turn key is held (5.0 radians/s, in milli-radians/s).
pub const TURN_RATE: i64 = 5_000;

/// Acceleration requested while the forward or backward key is held
/// (9.0 units/s^2) — just outside the stall deadband, so a held key always
/// keeps the player moving.
pub const KEY_ACCEL: i64 = 9_000;

/// Gain of the passive counter-request that bleeds speed and acceleration
/// off while no movement key is held.
pub const DRIFT_BRAKE_GAIN: i64 = 6;

/// Pressed state of the player's movement keys for one frame.
#[derive(Clone, Copy, PartialEq, Eq, Structural, Debug)]
pub struct KeyState {
    pub forward: bool,
    pub backward: bool,
    pub turn_left: bool,
    pub turn_right: bool,
    pub fast: bool,
}

/// The acceleration change one frame of key input asks for: a fixed push
/// while a movement key is held, otherwise a counter-request against the
/// current motion.
pub open spec fn accel_request(m: MotionState, keys: KeyState) -> int {
    if keys.forward {
        KEY_ACCEL as int
    } else if keys.backward {
        -(KEY_ACCEL as int)
    } else {
        -(m.speed * DRIFT_BRAKE_GAIN + m.acceleration)
    }
}

/// The motion state after one frame of key input: the request folded into
/// the acceleration, clamped to the actor's limit, and the fast flag taken
/// from the modifier key.
pub open spec fn steered(m: MotionState, keys: KeyState) -> MotionState {
    MotionState {
        acceleration: clamped(
            m.acceleration + accel_request(m, keys),
            -(m.max_acceleration as int),
            m.max_acceleration as int,
        ) as i64,
        fast: keys.fast,
        ..m
    }
}

/// The yaw to rotate by this frame, in milli-radians (positive turns left).
pub open spec fn turn_request(keys: KeyState, dt: int) -> int {
    if keys.turn_left {
        per_second(TURN_RATE as int, dt)
    } else if keys.turn_right {
        -per_second(TURN_RATE as int, dt)
    } else {
        0
    }
}

/// Applies one frame of keyboard control to the player's motion state and
/// returns the yaw to rotate the player by, in milli-radians.
pub fn steer(m: &mut MotionState, keys: KeyState, dt: u64) -> (turn: i64)
    requires
        old(m).wf(),
        dt <= DT_LIMIT,
    ensures
        final(m).wf(),
        *final(m) == steered(*old(m), keys),
        turn == turn_request(keys, dt as int),
{
    let request: i64 = if keys.forward {
        KEY_ACCEL
    } else if keys.backward {
        -KEY_ACCEL
    } else {
        assert(-(SPEED_LIMIT * DRIFT_BRAKE_GAIN) <= m.speed * DRIFT_BRAKE_GAIN <= SPEED_LIMIT
            * DRIFT_BRAKE_GAIN) by (nonlinear_arith)
            requires
                -SPEED_LIMIT <= m.speed <= SPEED_LIMIT,
        ;
        -(m.speed * DRIFT_BRAKE_GAIN + m.acceleration)
    };
    m.fast = keys.fast;
    m.acceleration = clamp_i64(m.acceleration + request, -m.max_acceleration, m.max_acceleration);
    if keys.turn_left {
        scale_per_second(TURN_RATE, dt)
    } else if keys.turn_right {
        -scale_per_second(TURN_RATE, dt)
    } else {
        0
    }
}

} // verus!
