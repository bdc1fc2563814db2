//! The game world: an explicit registry of movable, animated actors, and
//! the per-frame systems that drive them.
//!
//! Once per frame, in a fixed order for every actor — chase, then
//! integrate, then animate — the world folds the engine's sampled inputs
//! (planar offset to the target, grounded flag) into each actor's state and
//! returns the effects the engine must carry out: a yaw toward the target,
//! a transform displacement or a kinematic-controller request, and the
//! animation commands of the frame.  Each actor's state is written by at
//! most one upstream system and then read by the integrator, so a frame is
//! one pure function from world and inputs to world and effects.

use vstd::prelude::*;

use crate::animation::{select, selected, AnimationBinding, AnimationCommands, AnimatorState};
use crate::chase::{
    applied, apply_chase, decision_in_zone, zone_of_sq, ChaseBehavior, ChasePolicy, COORD_LIMIT,
};
use crate::fixed::{per_second, DT_LIMIT, MILLI};
use crate::link::AnimatorLinks;
use crate::motion::{player_request, MotionState, PlayerMove};

verus! {

/// How an actor's integrated motion reaches the engine: the player moves
/// through the collision-aware kinematic character controller, enemies
/// write their transform directly.
#[derive(Clone, Copy, PartialEq, Eq, Structural, Debug)]
pub enum ActorKind {
    Player,
    Enemy,
}

/// One movable, animated actor.
#[derive(Clone, PartialEq, Eq, Debug)]
pub struct Actor {
    /// The engine-side root entity of this actor.
    pub id: u64,
    /// How the actor's motion reaches the engine.
    pub kind: ActorKind,
    /// Whether the actor pursues the designated target.
    pub chase: ChaseBehavior,
    /// The actor's motion state.
    pub motion: MotionState,
    /// The actor's animation clips.
    pub binding: AnimationBinding,
    /// Mirror of the actor's animation player, present once the lazy link
    /// has resolved; until then the animation selector skips the actor.
    pub animator: Option<AnimatorState>,
}

impl Actor {
    /// Well-formed actor: valid motion data and a valid clip binding.
    pub open spec fn wf(self) -> bool {
        &&& self.motion.wf()
        &&& self.binding.wf()
    }
}

/// What the engine samples for one actor before the frame.
#[derive(Clone, Copy, PartialEq, Eq, Debug)]
pub struct ActorInput {
    /// Planar offset `(dx, dz)` from the actor to the designated target,
    /// if a target exists this frame.
    pub target_offset: Option<(i64, i64)>,
    /// Whether the character controller reported the actor grounded after
    /// the previous frame's resolution.
    pub grounded: bool,
}

/// An admissible frame input: coordinates small enough to square.
pub open spec fn input_ok(input: ActorInput) -> bool {
    match input.target_offset {
        Some(off) => -COORD_LIMIT <= off.0 <= COORD_LIMIT && -COORD_LIMIT <= off.1 <= COORD_LIMIT,
        None => true,
    }
}

/// What the engine must carry out for one actor after the frame.
#[derive(Clone, Copy, PartialEq, Eq, Debug)]
pub struct ActorEffect {
    /// Turn the actor (yaw-only) toward the designated target.
    pub face_target: bool,
    /// For a free-moving actor: the displacement to add along its facing,
    /// absent on a stalled frame, which leaves the transform untouched.
    pub displacement: Option<i64>,
    /// For the player: the translation to request from the kinematic
    /// character controller.
    pub controller_request: Option<PlayerMove>,
    /// The frame's animation commands, absent while the actor's animation
    /// player is not yet linked.
    pub animation: Option<AnimationCommands>,
}

/// The motion state after the chase system has run for this actor: only an
/// actor that follows a target, in a frame that has one, is written to.
pub open spec fn motion_after_chase(p: ChasePolicy, a: Actor, input: ActorInput) -> MotionState {
    if a.chase is FollowsTarget && input.target_offset is Some {
        let off = input.target_offset->Some_0;
        applied(
            a.motion,
            decision_in_zone(
                p,
                zone_of_sq(p, off.0 * off.0 + off.1 * off.1),
                a.motion.speed as int,
            ),
        )
    } else {
        a.motion
    }
}

/// One frame of one actor: chase, then integrate, then animate, as a pure
/// function from actor and input to actor and effect.
pub open spec fn actor_frame(p: ChasePolicy, a: Actor, input: ActorInput, dt: int) -> (
    Actor,
    ActorEffect,
) {
    let m1 = motion_after_chase(p, a, input);
    let m2 = m1.stepped(dt);
    let face = a.chase is FollowsTarget && input.target_offset is Some;
    let displacement = if a.kind is Enemy {
        if m1.stalls(dt) {
            None
        } else {
            Some(per_second(m2.speed as int, dt) as i64)
        }
    } else {
        None
    };
    let controller_request = if a.kind is Player {
        player_request(m1, input.grounded, dt)
    } else {
        None
    };
    let (animator, animation): (Option<AnimatorState>, Option<AnimationCommands>) =
        match a.animator {
        Some(st) => {
            let (st2, cmds) = selected(m2, a.binding, st);
            (Some(st2), Some(cmds))
        },
        None => (None, None),
    };
    (
        Actor { motion: m2, animator, ..a },
        ActorEffect { face_target: face, displacement, controller_request, animation },
    )
}

/// Runs one frame for one actor: the chase decision (for a pursuing actor
/// with a target), the motion integration of its kind, and the animation
/// selector once its player is linked.
pub fn step_actor(p: &ChasePolicy, a: &mut Actor, input: ActorInput, dt: u64) -> (e: ActorEffect)
    requires
        p.wf(),
        old(a).wf(),
        input_ok(input),
        dt <= DT_LIMIT,
    ensures
        final(a).wf(),
        (*final(a), e) == actor_frame(*p, *old(a), input, dt as int),
{
    let mut face: bool = false;
    match a.chase {
        ChaseBehavior::FollowsTarget => {
            match input.target_offset {
                Some(off) => {
                    apply_chase(p, &mut a.motion, off.0, off.1);
                    face = true;
                },
                None => {},
            }
        },
        ChaseBehavior::Passive => {},
    }
    let mut displacement: Option<i64> = None;
    let mut controller_request: Option<PlayerMove> = None;
    match a.kind {
        ActorKind::Player => {
            controller_request = a.motion.integrate_player(input.grounded, dt);
        },
        ActorKind::Enemy => {
            let d = a.motion.integrate_free(dt);
            if !(a.motion.speed == 0 && a.motion.acceleration == 0) {
                displacement = Some(d);
            }
        },
    }
    let animation: Option<AnimationCommands> = match &mut a.animator {
        Some(st) => Some(select(&a.motion, &a.binding, st)),
        None => None,
    };
    ActorEffect { face_target: face, displacement, controller_request, animation }
}

/// The world: the chase tuning, the actors, and the registry of resolved
/// animation-player links.
#[derive(Clone, PartialEq, Eq, Debug)]
pub struct World {
    /// Tuning of the chase behaviour, shared by all pursuing actors.
    pub policy: ChasePolicy,
    /// The registered actors.
    pub actors: Vec<Actor>,
    /// Resolved owner-to-animation-player links.
    pub links: AnimatorLinks,
}

impl World {
    /// Well-formed world: valid tuning, valid actors under pairwise
    /// distinct entity ids, and a valid link registry.
    pub open spec fn wf(self) -> bool {
        &&& self.policy.wf()
        &&& self.links.wf()
        &&& forall|i: int| 0 <= i < self.actors@.len() ==> (#[trigger] self.actors@[i]).wf()
        &&& forall|i: int, j: int|
            0 <= i < j < self.actors@.len() ==> (#[trigger] self.actors@[i]).id != (
            #[trigger] self.actors@[j]).id
    }

    /// An empty world under the given chase tuning.
    pub fn new(policy: ChasePolicy) -> (w: World)
        requires
            policy.wf(),
        ensures
            w.wf(),
            w.policy == policy,
            w.actors@.len() == 0,
            w.links@ == Map::<u64, u64>::empty(),
    {
        World { policy, actors: Vec::new(), links: AnimatorLinks::new() }
    }

    /// Whether an actor is registered under `id`.
    pub fn has_actor(&self, id: u64) -> (b: bool)
        ensures
            b == exists|i: int| 0 <= i < self.actors@.len() && (#[trigger] self.actors@[i]).id
                == id,
    {
        let n: usize = self.actors.len();
        let mut idx: usize = 0;
        while idx < n
            invariant
                n == self.actors@.len(),
                0 <= idx <= n,
                forall|j: int| 0 <= j < idx ==> (#[trigger] self.actors@[j]).id != id,
            decreases n - idx,
        {
            if self.actors[idx].id == id {
                assert(self.actors@[idx as int].id == id);
                return true;
            }
            idx = idx + 1;
        }
        false
    }

    /// Registers an actor, without an animation link yet.  Fails — and
    /// changes nothing — exactly when the entity id is already taken.
    pub fn add_actor(
        &mut self,
        id: u64,
        kind: ActorKind,
        chase: ChaseBehavior,
        motion: MotionState,
        binding: AnimationBinding,
    ) -> (ok: bool)
        requires
            old(self).wf(),
            motion.wf(),
            binding.wf(),
        ensures
            final(self).wf(),
            final(self).policy == old(self).policy,
            final(self).links == old(self).links,
            ok == !(exists|i: int| 0 <= i < old(self).actors@.len() && (#[trigger] old(
                self,
            ).actors@[i]).id == id),
            ok ==> final(self).actors@ == old(self).actors@.push(
                Actor { id, kind, chase, motion, binding, animator: None },
            ),
            !ok ==> final(self).actors@ == old(self).actors@,
    {
        if self.has_actor(id) {
            false
        } else {
            self.actors.push(Actor { id, kind, chase, motion, binding, animator: None });
            true
        }
    }

    /// Records the animation player discovered under the actor root
    /// `owner` and begins mirroring that player.  Idempotent: a second
    /// discovery for the same owner changes nothing, so the link is
    /// created exactly once and never updated afterward.
    pub fn resolve_animator(&mut self, owner: u64, player: u64) -> (added: bool)
        requires
            old(self).wf(),
        ensures
            final(self).wf(),
            final(self).policy == old(self).policy,
            added == !old(self).links@.contains_key(owner),
            final(self).links@ == if added {
                old(self).links@.insert(owner, player)
            } else {
                old(self).links@
            },
            final(self).actors@.len() == old(self).actors@.len(),
            forall|i: int|
                0 <= i < old(self).actors@.len() ==> (#[trigger] final(self).actors@[i])
                    == if added && old(self).actors@[i].id == owner {
                    Actor {
                        animator: Some(
                            AnimatorState { active: None, repeating: false, rate: MILLI },
                        ),
                        ..old(self).actors@[i]
                    }
                } else {
                    old(self).actors@[i]
                },
    {
        let added = self.links.link(owner, player);
        if added {
            let n: usize = self.actors.len();
            let mut idx: usize = 0;
            while idx < n
                invariant
                    old(self).wf(),
                    n == self.actors@.len(),
                    n == old(self).actors@.len(),
                    0 <= idx <= n,
                    self.policy == old(self).policy,
                    self.links@ == old(self).links@.insert(owner, player),
                    self.links.wf(),
                    forall|i: int|
                        0 <= i < idx ==> (#[trigger] self.actors@[i]) == if old(
                            self,
                        ).actors@[i].id == owner {
                            Actor {
                                animator: Some(
                                    AnimatorState { active: None, repeating: false, rate: MILLI },
                                ),
                                ..old(self).actors@[i]
                            }
                        } else {
                            old(self).actors@[i]
                        },
                    forall|i: int|
                        idx <= i < n ==> (#[trigger] self.actors@[i]) == old(self).actors@[i],
                decreases n - idx,
            {
                if self.actors[idx].id == owner {
                    let a = &mut self.actors[idx];
                    a.animator = Some(AnimatorState::new());
                }
                idx = idx + 1;
            }
        }
        added
    }

    /// Runs one whole frame: for every actor, in registry order, the chase
    /// decision, the motion integration and the animation selection, each
    /// actor from its own sampled input.  Returns one effect per actor.
    pub fn frame(&mut self, inputs: &Vec<ActorInput>, dt: u64) -> (effects: Vec<ActorEffect>)
        requires
            old(self).wf(),
            inputs@.len() == old(self).actors@.len(),
            forall|i: int| 0 <= i < inputs@.len() ==> input_ok(#[trigger] inputs@[i]),
            dt <= DT_LIMIT,
        ensures
            final(self).wf(),
            final(self).policy == old(self).policy,
            final(self).links == old(self).links,
            final(self).actors@.len() == old(self).actors@.len(),
            effects@.len() == old(self).actors@.len(),
            forall|i: int|
                0 <= i < old(self).actors@.len() ==> (
                final(self).actors@[i],
                #[trigger] effects@[i],
                ) == actor_frame(old(self).policy, old(self).actors@[i], inputs@[i], dt as int),
    {
        let p: ChasePolicy = self.policy;
        let n: usize = self.actors.len();
        let mut effects: Vec<ActorEffect> = Vec::new();
        let mut idx: usize = 0;
        while idx < n
            invariant
                old(self).wf(),
                p == old(self).policy,
                dt <= DT_LIMIT,
                n == self.actors@.len(),
                n == old(self).actors@.len(),
                inputs@.len() == n,
                forall|i: int| 0 <= i < n ==> input_ok(#[trigger] inputs@[i]),
                0 <= idx <= n,
                effects@.len() == idx,
                self.policy == old(self).policy,
                self.links == old(self).links,
                forall|i: int|
                    0 <= i < idx ==> (self.actors@[i], #[trigger] effects@[i]) == actor_frame(
                        p,
                        old(self).actors@[i],
                        inputs@[i],
                        dt as int,
                    ),
                forall|i: int| 0 <= i < idx ==> (#[trigger] self.actors@[i]).wf(),
                forall|i: int|
                    idx <= i < n ==> (#[trigger] self.actors@[i]) == old(self).actors@[i],
            decreases n - idx,
        {
            let input: ActorInput = inputs[idx];
            let a = &mut self.actors[idx];
            let e = step_actor(&p, a, input, dt);
            effects.push(e);
            idx = idx + 1;
        }
        proof {
            assert forall|i: int, j: int| 0 <= i < j < n implies (#[trigger] self.actors@[i]).id
                != (#[trigger] self.actors@[j]).id by {
                assert((self.actors@[i], effects@[i]) == actor_frame(
                    p,
                    old(self).actors@[i],
                    inputs@[i],
                    dt as int,
                ));
                assert((self.actors@[j], effects@[j]) == actor_frame(
                    p,
                    old(self).actors@[j],
                    inputs@[j],
                    dt as int,
                ));
            }
        }
        effects
    }
}

} // verus!
