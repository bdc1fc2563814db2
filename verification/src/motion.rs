//! Kinematic motion integration.
//!
//! Every movable actor carries a [`MotionState`].  Once per frame, after the
//! upstream controller (player input or chase behaviour) has written the
//! desired acceleration, the integrator advances the speed, clamps it to the
//! current cap — the full top speed when `fast` is set, half of it otherwise —
//! and applies the stall deadband: a speed of less than one unit per second
//! under an acceleration of less than nine units per second squared snaps to
//! an exact standstill instead of creeping forever.
//!
//! Free-moving actors (enemies) turn the integrated speed directly into a
//! displacement along their facing; the player instead hands a requested
//! translation, together with a constant fall vector while airborne, to the
//! engine's kinematic character controller for collision-aware resolution.

use vstd::prelude::*;

use crate::fixed::{clamp_i64, clamped, per_second, scale_per_second};
use crate::fixed::{ACCEL_LIMIT, DT_LIMIT, SPEED_LIMIT};

verus! {

/// Below this speed magnitude (1.0 unit/s) the stall deadband can engage.
pub const STALL_SPEED_BAND: i64 = 1_000;

/// Below this acceleration magnitude (9.0 units/s^2) the stall deadband can
/// engage.
pub const STALL_ACCEL_BAND: i64 = 9_000;

/// Constant downward fall speed (10.0 units/s) while the controller reports
/// the player as not grounded.
pub const FALL_SPEED: i64 = 10_000;

/// A requested controller translation shorter than this (0.001 units) is
/// dropped rather than handed to the physics engine.
pub const SETTLE_EPSILON: i64 = 1;

/// Motion data of one movable actor, in milli-units (see [`crate::fixed`]).
#[derive(Clone, Copy, PartialEq, Eq, Structural, Debug)]
pub struct MotionState {
    /// Desired acceleration, written by upstream control each frame.
    pub acceleration: i64,
    /// Largest acceleration magnitude upstream control may request.
    pub max_acceleration: i64,
    /// Current signed speed along the actor's facing.
    pub speed: i64,
    /// Top speed; only reachable while `fast` is set.
    pub max_speed: i64,
    /// Whether the actor may exceed half of its top speed this frame.
    pub fast: bool,
}

impl MotionState {
    /// Well-formed motion data: bounds that every constructor establishes and
    /// the integrator preserves.
    pub open spec fn wf(self) -> bool {
        &&& 2 <= self.max_speed <= SPEED_LIMIT
        &&& 0 <= self.max_acceleration <= ACCEL_LIMIT
        &&& -self.max_speed <= self.speed <= self.max_speed
        &&& -ACCEL_LIMIT <= self.acceleration <= ACCEL_LIMIT
    }

    /// The speed cap of the current frame: the top speed when `fast`, half of
    /// it otherwise.
    pub open spec fn speed_cap(self) -> int {
        if self.fast {
            self.max_speed as int
        } else {
            self.max_speed as int / 2
        }
    }

    /// The speed after integrating the acceleration over `dt` milliseconds
    /// and clamping to the cap, before the stall deadband is applied.
    pub open spec fn clamped_speed(self, dt: int) -> int {
        clamped(
            self.speed + per_second(self.acceleration as int, dt),
            -self.speed_cap(),
            self.speed_cap(),
        )
    }

    /// Whether this frame ends in the stall deadband: clamped speed below
    /// [`STALL_SPEED_BAND`] and acceleration below [`STALL_ACCEL_BAND`], both
    /// in magnitude.
    pub open spec fn stalls(self, dt: int) -> bool {
        let s = self.clamped_speed(dt);
        &&& -STALL_SPEED_BAND < s < STALL_SPEED_BAND
        &&& -STALL_ACCEL_BAND < self.acceleration < STALL_ACCEL_BAND
    }

    /// The motion state after one frame of integration over `dt`
    /// milliseconds.
    pub open spec fn stepped(self, dt: int) -> MotionState {
        if self.stalls(dt) {
            MotionState { speed: 0, acceleration: 0, ..self }
        } else {
            MotionState { speed: self.clamped_speed(dt) as i64, ..self }
        }
    }

    /// Validating constructor: an actor starts at rest, in the slow regime.
    /// Returns `None` exactly when a bound is out of range.
    pub fn new(max_speed: i64, max_acceleration: i64) -> (r: Option<MotionState>)
        ensures
            r is Some <==> (2 <= max_speed <= SPEED_LIMIT && 0 <= max_acceleration <= ACCEL_LIMIT),
            r matches Some(m) ==> m == (MotionState {
                acceleration: 0,
                max_acceleration,
                speed: 0,
                max_speed,
                fast: false,
            }),
            r matches Some(m) ==> m.wf(),
    {
        if 2 <= max_speed && max_speed <= SPEED_LIMIT && 0 <= max_acceleration
            && max_acceleration <= ACCEL_LIMIT {
            Some(MotionState { acceleration: 0, max_acceleration, speed: 0, max_speed, fast: false })
        } else {
            None
        }
    }

    /// Advances the speed by one frame: integrate the acceleration, clamp to
    /// the cap, then snap to a standstill inside the stall deadband.  The
    /// clamp runs strictly before the deadband, so a deceleration path
    /// reaches exact zero instead of asymptoting.
    pub fn integrate(&mut self, dt: u64)
        requires
            old(self).wf(),
            dt <= DT_LIMIT,
        ensures
            *final(self) == old(self).stepped(dt as int),
            final(self).wf(),
            -final(self).speed_cap() <= final(self).speed <= final(self).speed_cap(),
    {
        let cap: i64 = if self.fast {
            self.max_speed
        } else {
            (self.max_speed as u64 / 2) as i64
        };
        let delta: i64 = scale_per_second(self.acceleration, dt);
        let s: i64 = clamp_i64(self.speed + delta, -cap, cap);
        if -STALL_SPEED_BAND < s && s < STALL_SPEED_BAND && -STALL_ACCEL_BAND < self.acceleration
            && self.acceleration < STALL_ACCEL_BAND {
            self.speed = 0;
            self.acceleration = 0;
        } else {
            self.speed = s;
        }
    }

    /// The planar distance this actor covers along its facing during a frame
    /// of `dt` milliseconds at its current (already integrated) speed.
    pub fn frame_displacement(&self, dt: u64) -> (d: i64)
        requires
            self.wf(),
            dt <= DT_LIMIT,
        ensures
            d == per_second(self.speed as int, dt as int),
    {
        scale_per_second(self.speed, dt)
    }

    /// One frame of a free-moving actor (an enemy): integrates the speed and
    /// returns the displacement to add along the actor's facing — zero when
    /// the frame ends in the stall deadband, so that a stalled frame leaves
    /// the transform untouched.
    pub fn integrate_free(&mut self, dt: u64) -> (d: i64)
        requires
            old(self).wf(),
            dt <= DT_LIMIT,
        ensures
            *final(self) == old(self).stepped(dt as int),
            final(self).wf(),
            d == if old(self).stalls(dt as int) {
                0int
            } else {
                per_second(old(self).stepped(dt as int).speed as int, dt as int)
            },
    {
        self.integrate(dt);
        if self.speed == 0 && self.acceleration == 0 {
            0
        } else {
            scale_per_second(self.speed, dt)
        }
    }

    /// One frame of the kinematically controlled player: integrates the
    /// speed and returns the translation to request from the character
    /// controller, per [`player_request`].
    pub fn integrate_player(&mut self, grounded: bool, dt: u64) -> (mv: Option<PlayerMove>)
        requires
            old(self).wf(),
            dt <= DT_LIMIT,
        ensures
            *final(self) == old(self).stepped(dt as int),
            final(self).wf(),
            mv == player_request(*old(self), grounded, dt as int),
    {
        let vertical: i64 = if grounded {
            0
        } else {
            scale_per_second(-FALL_SPEED, dt)
        };
        self.integrate(dt);
        if self.speed == 0 && self.acceleration == 0 {
            if vertical < -SETTLE_EPSILON || SETTLE_EPSILON < vertical {
                Some(PlayerMove { forward: 0, vertical })
            } else {
                None
            }
        } else {
            let forward: i64 = scale_per_second(self.speed, dt);
            Some(PlayerMove { forward, vertical })
        }
    }
}

/// A translation requested from the kinematic character controller: a
/// displacement along the player's facing plus a vertical fall component,
/// both in milli-units.
#[derive(Clone, Copy, PartialEq, Eq, Structural, Debug)]
pub struct PlayerMove {
    pub forward: i64,
    pub vertical: i64,
}

/// The vertical displacement of one frame: a constant [`FALL_SPEED`] fall
/// while the controller reported the player as airborne, nothing otherwise.
pub open spec fn fall_displacement(grounded: bool, dt: int) -> int {
    if grounded {
        0
    } else {
        per_second(-FALL_SPEED as int, dt)
    }
}

/// What one player frame requests from the character controller.  On a
/// stalled frame only the fall remains, and a request shorter than
/// [`SETTLE_EPSILON`] is dropped entirely; otherwise the request carries the
/// frame displacement at the integrated speed together with the fall.
pub open spec fn player_request(m: MotionState, grounded: bool, dt: int) -> Option<PlayerMove> {
    let fall = fall_displacement(grounded, dt);
    if m.stalls(dt) {
        if fall < -SETTLE_EPSILON || SETTLE_EPSILON < fall {
            Some(PlayerMove { forward: 0, vertical: fall as i64 })
        } else {
            None
        }
    } else {
        Some(
            PlayerMove {
                forward: per_second(m.stepped(dt).speed as int, dt) as i64,
                vertical: fall as i64,
            },
        )
    }
}

/// One externally driven frame: upstream control writes the desired
/// acceleration and the fast flag, then the integrator runs over `dt`.
pub open spec fn driven(m: MotionState, accel: i64, fast: bool, dt: u64) -> MotionState {
    (MotionState { acceleration: accel, fast: fast, ..m }).stepped(dt as int)
}

/// An admissible frame input: a bounded acceleration and frame time.
pub open spec fn frame_input_ok(input: (i64, bool, u64)) -> bool {
    &&& -ACCEL_LIMIT <= input.0 <= ACCEL_LIMIT
    &&& input.2 <= DT_LIMIT
}

/// The motion state after a whole sequence of driven frames, each input an
/// `(acceleration, fast, dt)` triple.
pub open spec fn driven_run(m: MotionState, inputs: Seq<(i64, bool, u64)>) -> MotionState
    decreases inputs.len(),
{
    if inputs.len() == 0 {
        m
    } else {
        driven(
            driven_run(m, inputs.drop_last()),
            inputs.last().0,
            inputs.last().1,
            inputs.last().2,
        )
    }
}

/// Clamp invariant: across any sequence of frames — whatever accelerations,
/// fast flags and frame times upstream control writes — the state stays well
/// formed, and once a frame has run the integrated speed never leaves the
/// cap of that frame's fast flag.
pub proof fn lemma_clamp_invariant(m: MotionState, inputs: Seq<(i64, bool, u64)>)
    requires
        m.wf(),
        forall|i: int| 0 <= i < inputs.len() ==> frame_input_ok(#[trigger] inputs[i]),
    ensures
        driven_run(m, inputs).wf(),
        inputs.len() > 0 ==> -driven_run(m, inputs).speed_cap() <= driven_run(m, inputs).speed
            <= driven_run(m, inputs).speed_cap(),
    decreases inputs.len(),
{
    if inputs.len() > 0 {
        assert(forall|i: int|
            0 <= i < inputs.drop_last().len() ==> frame_input_ok(
                #[trigger] inputs.drop_last()[i],
            ));
        lemma_clamp_invariant(m, inputs.drop_last());
        assert(frame_input_ok(inputs[inputs.len() - 1]));
    }
}

/// The motion state after repeated integration with the acceleration held at
/// zero: the actor coasts.
pub open spec fn coasted(m: MotionState, dts: Seq<u64>) -> MotionState
    decreases dts.len(),
{
    if dts.len() == 0 {
        m
    } else {
        coasted(m, dts.drop_last()).stepped(dts.last() as int)
    }
}

/// Stall convergence: with the acceleration held at zero, the coasting speed
/// never grows in magnitude and never changes sign — no oscillation around
/// zero — and a start inside the stall deadband reaches an exact standstill
/// on the first frame and stays there.
pub proof fn lemma_stall_convergence(m: MotionState, dts: Seq<u64>)
    requires
        m.wf(),
        m.acceleration == 0,
        forall|i: int| 0 <= i < dts.len() ==> #[trigger] dts[i] <= DT_LIMIT,
    ensures
        coasted(m, dts).wf(),
        coasted(m, dts).acceleration == 0,
        m.speed >= 0 ==> 0 <= coasted(m, dts).speed <= m.speed,
        m.speed <= 0 ==> m.speed <= coasted(m, dts).speed <= 0,
        (dts.len() > 0 && -STALL_SPEED_BAND < m.speed < STALL_SPEED_BAND) ==> coasted(
            m,
            dts,
        ).speed == 0,
    decreases dts.len(),
{
    if dts.len() > 0 {
        assert(forall|i: int|
            0 <= i < dts.drop_last().len() ==> #[trigger] dts.drop_last()[i] <= DT_LIMIT);
        lemma_stall_convergence(m, dts.drop_last());
        assert(dts[dts.len() - 1] <= DT_LIMIT);
    }
}

} // verus!
