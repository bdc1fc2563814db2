//! Chase behaviour of pursuing enemies.
//!
//! Each frame, an enemy tagged as following a target faces the target
//! (yaw-only — the turn itself is a quaternion rotation carried out by the
//! engine) and writes a desired acceleration onto its motion state from the
//! planar distance to the target: beyond the far threshold it approaches at
//! a moderate acceleration in the slow regime, between the thresholds it
//! pursues hard with the fast flag set, and inside the near threshold it
//! brakes actively with an acceleration opposite to its current speed,
//! driving toward a stop rather than reversing.
//!
//! Distances are compared through their squares, so the planar decision is
//! exact in fixed point and needs no square root.

use vstd::prelude::*;

use crate::fixed::ACCEL_LIMIT;
use crate::motion::MotionState;

verus! {

/// Largest admissible planar coordinate magnitude (milli-units; a million
/// world units), so that a squared distance still fits an `i64`.
pub const COORD_LIMIT: i64 = 1_000_000_000;

/// Behaviour variant of an enemy: either it follows the designated target or
/// it stands passive.
#[derive(Clone, Copy, PartialEq, Eq, Structural, Debug)]
pub enum ChaseBehavior {
    FollowsTarget,
    Passive,
}

/// The three bands of the chase policy, by planar distance to the target.
#[derive(Clone, Copy, PartialEq, Eq, Structural, Debug)]
pub enum ChaseZone {
    /// Beyond the far threshold: approach at a moderate pace.
    Approach,
    /// Between the thresholds: pursue at full speed.
    Pursue,
    /// Inside the near threshold: brake toward a stop.
    Brake,
}

/// Tuning of the chase bands.  The thresholds and magnitudes are
/// configuration, not law; [`ChasePolicy::standard`] gives the values the
/// game ships with.
#[derive(Clone, Copy, PartialEq, Eq, Structural, Debug)]
pub struct ChasePolicy {
    /// Inside this planar distance the enemy brakes.
    pub near_distance: i64,
    /// Beyond this planar distance the enemy only approaches.
    pub far_distance: i64,
    /// Acceleration written in the approach band (fast flag cleared).
    pub approach_acceleration: i64,
    /// Acceleration written in the pursuit band (fast flag set).
    pub pursuit_acceleration: i64,
}

impl ChasePolicy {
    /// Well-formed tuning: ordered thresholds and bounded magnitudes.
    pub open spec fn wf(self) -> bool {
        &&& 0 <= self.near_distance <= self.far_distance <= COORD_LIMIT
        &&& 0 <= self.approach_acceleration <= ACCEL_LIMIT
        &&& 0 <= self.pursuit_acceleration <= ACCEL_LIMIT
    }

    /// The tuning the game ships with: brake inside 7 units, pursue at
    /// 15 units/s^2 up to 18 units, approach at 10 units/s^2 beyond.
    pub fn standard() -> (p: ChasePolicy)
        ensures
            p == standard_policy(),
            p.wf(),
    {
        ChasePolicy {
            near_distance: 7_000,
            far_distance: 18_000,
            approach_acceleration: 10_000,
            pursuit_acceleration: 15_000,
        }
    }
}

/// The shipped chase tuning, as a value contracts can speak of.
pub open spec fn standard_policy() -> ChasePolicy {
    ChasePolicy {
        near_distance: 7_000,
        far_distance: 18_000,
        approach_acceleration: 10_000,
        pursuit_acceleration: 15_000,
    }
}

/// The band a planar distance `d` falls in.
pub open spec fn zone_of(p: ChasePolicy, d: int) -> ChaseZone {
    if d > p.far_distance {
        ChaseZone::Approach
    } else if d > p.near_distance {
        ChaseZone::Pursue
    } else {
        ChaseZone::Brake
    }
}

/// The band a squared planar distance `d2` falls in.  For a nonnegative
/// distance `d`, `zone_of_sq(p, d * d)` agrees with `zone_of(p, d)`
/// ([`lemma_zone_sq_agrees`]).
pub open spec fn zone_of_sq(p: ChasePolicy, d2: int) -> ChaseZone {
    if d2 > p.far_distance * p.far_distance {
        ChaseZone::Approach
    } else if d2 > p.near_distance * p.near_distance {
        ChaseZone::Pursue
    } else {
        ChaseZone::Brake
    }
}

/// Comparing squared distances picks the same band as comparing distances.
pub proof fn lemma_zone_sq_agrees(p: ChasePolicy, d: int)
    requires
        p.wf(),
        d >= 0,
    ensures
        zone_of_sq(p, d * d) == zone_of(p, d),
{
    assert((d > p.far_distance <==> d * d > p.far_distance * p.far_distance) && (d
        > p.near_distance <==> d * d > p.near_distance * p.near_distance)) by (nonlinear_arith)
        requires
            d >= 0,
            p.far_distance >= 0,
            p.near_distance >= 0,
    ;
}

/// What the chase behaviour writes onto the motion state: an acceleration,
/// and in the outer two bands a new value for the fast flag (braking leaves
/// the flag as it was).
#[derive(Clone, Copy, PartialEq, Eq, Structural, Debug)]
pub struct ChaseDecision {
    pub acceleration: i64,
    pub fast: Option<bool>,
}

/// The decision made inside a band, for an enemy currently at `speed`.
pub open spec fn decision_in_zone(p: ChasePolicy, z: ChaseZone, speed: int) -> ChaseDecision {
    match z {
        ChaseZone::Approach => ChaseDecision {
            acceleration: p.approach_acceleration,
            fast: Some(false),
        },
        ChaseZone::Pursue => ChaseDecision { acceleration: p.pursuit_acceleration, fast: Some(true) },
        ChaseZone::Brake => ChaseDecision { acceleration: (-speed) as i64, fast: None },
    }
}

/// The decision as a pure function of the planar distance and the enemy's
/// current speed.
pub open spec fn decision_of(p: ChasePolicy, d: int, speed: int) -> ChaseDecision {
    decision_in_zone(p, zone_of(p, d), speed)
}

/// A decision written onto a motion state: the acceleration is replaced, the
/// fast flag only where the decision carries one, and nothing else moves.
pub open spec fn applied(m: MotionState, d: ChaseDecision) -> MotionState {
    MotionState {
        acceleration: d.acceleration,
        fast: match d.fast {
            Some(f) => f,
            None => m.fast,
        },
        ..m
    }
}

/// Decides the chase output for a target at planar distance `distance`, for
/// an enemy currently moving at `speed`: a pure function of the distance and
/// the current speed, per band.
pub fn decide(p: &ChasePolicy, distance: i64, speed: i64) -> (r: ChaseDecision)
    requires
        p.wf(),
        -ACCEL_LIMIT <= speed <= ACCEL_LIMIT,
    ensures
        r == decision_of(*p, distance as int, speed as int),
        distance > p.far_distance ==> r == (ChaseDecision {
            acceleration: p.approach_acceleration,
            fast: Some(false),
        }),
        p.near_distance < distance <= p.far_distance ==> r == (ChaseDecision {
            acceleration: p.pursuit_acceleration,
            fast: Some(true),
        }),
        distance <= p.near_distance ==> r == (ChaseDecision {
            acceleration: ((-speed) as i64),
            fast: None,
        }),
{
    if distance > p.far_distance {
        ChaseDecision { acceleration: p.approach_acceleration, fast: Some(false) }
    } else if distance > p.near_distance {
        ChaseDecision { acceleration: p.pursuit_acceleration, fast: Some(true) }
    } else {
        ChaseDecision { acceleration: -speed, fast: None }
    }
}

/// Faces the enemy toward its target and writes the chase decision onto its
/// motion state, from the planar offset `(dx, dz)` between enemy and target.
/// Only the acceleration and (outside the brake band) the fast flag change.
pub fn apply_chase(p: &ChasePolicy, m: &mut MotionState, dx: i64, dz: i64)
    requires
        p.wf(),
        old(m).wf(),
        -COORD_LIMIT <= dx <= COORD_LIMIT,
        -COORD_LIMIT <= dz <= COORD_LIMIT,
    ensures
        final(m).wf(),
        *final(m) == applied(
            *old(m),
            decision_in_zone(*p, zone_of_sq(*p, dx * dx + dz * dz), old(m).speed as int),
        ),
{
    let z = zone_planar(p, dx, dz);
    match z {
        ChaseZone::Approach => {
            m.acceleration = p.approach_acceleration;
            m.fast = false;
        },
        ChaseZone::Pursue => {
            m.acceleration = p.pursuit_acceleration;
            m.fast = true;
        },
        ChaseZone::Brake => {
            m.acceleration = -m.speed;
        },
    }
}

/// The band of a planar offset, decided on squared distances.
pub fn zone_planar(p: &ChasePolicy, dx: i64, dz: i64) -> (z: ChaseZone)
    requires
        p.wf(),
        -COORD_LIMIT <= dx <= COORD_LIMIT,
        -COORD_LIMIT <= dz <= COORD_LIMIT,
    ensures
        z == zone_of_sq(*p, dx * dx + dz * dz),
{
    assert(dx * dx <= COORD_LIMIT * COORD_LIMIT && dx * dx >= 0 && dz * dz <= COORD_LIMIT
        * COORD_LIMIT && dz * dz >= 0 && p.far_distance * p.far_distance <= COORD_LIMIT
        * COORD_LIMIT && p.far_distance * p.far_distance >= 0 && p.near_distance * p.near_distance
        <= COORD_LIMIT * COORD_LIMIT && p.near_distance * p.near_distance >= 0)
        by (nonlinear_arith)
        requires
            -COORD_LIMIT <= dx <= COORD_LIMIT,
            -COORD_LIMIT <= dz <= COORD_LIMIT,
            0 <= p.far_distance <= COORD_LIMIT,
            0 <= p.near_distance <= COORD_LIMIT,
    ;
    let d2: i64 = dx * dx + dz * dz;
    if d2 > p.far_distance * p.far_distance {
        ChaseZone::Approach
    } else if d2 > p.near_distance * p.near_distance {
        ChaseZone::Pursue
    } else {
        ChaseZone::Brake
    }
}

} // verus!
