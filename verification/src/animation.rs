//! Animation state selection.
//!
//! Each frame, an actor's integrated speed and acceleration are mapped onto
//! one of three clip roles — idle at an exact standstill, walk up to half
//! the top speed (plus a small slack), run above — and the library keeps a
//! mirror of the engine's animation player so that re-selecting the clip
//! that already plays issues no new start command: transitions cross-fade
//! over a fixed blend time instead of cutting, and an idle loop is never
//! restarted while idle.  The playback rate of the walk and run clips is
//! recomputed every frame, so stride frequency stays synchronized with the
//! actual speed even when no clip switch occurs.
//!
//! Clips are named by explicit role, not by ordinal position in the source
//! animation set; which of the bound idle clips an actor uses is fixed once,
//! at construction, by a validated index.

use vstd::prelude::*;

use crate::fixed::{ratio_milli, ratio_milli_i64, MILLI};
use crate::motion::MotionState;

verus! {

/// Cross-fade time into the idle clip, in milliseconds.
pub const IDLE_BLEND_MILLIS: u64 = 200;

/// Cross-fade time into the walk or run clip, in milliseconds.
pub const MOVE_BLEND_MILLIS: u64 = 300;

/// Slack (0.1 unit/s) above half the top speed within which the walk clip
/// still plays.
pub const WALK_THRESHOLD_SLACK: i64 = 100;

/// The three animation categories a moving actor can be in.
#[derive(Clone, Copy, PartialEq, Eq, Structural, Debug)]
pub enum ClipRole {
    Idle,
    Walk,
    Run,
}

/// The animation clips bound to an actor, each clip named by the engine-side
/// handle it was loaded under.
#[derive(Clone, PartialEq, Eq, Debug)]
pub struct AnimationBinding {
    /// Clip played in the run band.
    pub run_clip: u64,
    /// Clip played in the walk band.
    pub walk_clip: u64,
    /// The idle clips of the source animation set (at least two).
    pub idle_clips: Vec<u64>,
    /// Which idle clip this actor uses.
    pub idle_index: usize,
}

impl AnimationBinding {
    /// The idle clip this actor uses.
    pub open spec fn idle_clip(self) -> u64 {
        self.idle_clips@[self.idle_index as int]
    }

    /// Well-formed binding: enough idle clips, a valid index, and three
    /// pairwise distinct active clips — what makes "exactly one clip
    /// reports as playing" meaningful.
    pub open spec fn wf(self) -> bool {
        &&& self.idle_clips@.len() >= 2
        &&& self.idle_index < self.idle_clips@.len()
        &&& self.idle_clip() != self.walk_clip
        &&& self.idle_clip() != self.run_clip
        &&& self.walk_clip != self.run_clip
    }

    /// The clip of a role.
    pub open spec fn clip_for(self, role: ClipRole) -> u64 {
        match role {
            ClipRole::Idle => self.idle_clip(),
            ClipRole::Walk => self.walk_clip,
            ClipRole::Run => self.run_clip,
        }
    }

    /// Validating constructor: fails fast, at actor construction time,
    /// rather than on a bad clip lookup in the per-frame loop.  Returns
    /// `None` exactly when the binding would be malformed.
    pub fn new(run_clip: u64, walk_clip: u64, idle_clips: Vec<u64>, idle_index: usize) -> (r:
        Option<AnimationBinding>)
        ensures
            r is Some <==> (AnimationBinding { run_clip, walk_clip, idle_clips, idle_index }).wf(),
            r matches Some(b) ==> b == (AnimationBinding { run_clip, walk_clip, idle_clips, idle_index }),
            r matches Some(b) ==> b.wf(),
    {
        if idle_clips.len() >= 2 && idle_index < idle_clips.len() {
            let idle = idle_clips[idle_index];
            if idle != walk_clip && idle != run_clip && walk_clip != run_clip {
                Some(AnimationBinding { run_clip, walk_clip, idle_clips, idle_index })
            } else {
                None
            }
        } else {
            None
        }
    }
}

/// The library's mirror of an engine-side animation player: which clip is
/// active, whether it loops, and its playback rate in milli-units
/// (`1000` is nominal speed).
#[derive(Clone, Copy, PartialEq, Eq, Debug)]
pub struct AnimatorState {
    /// The active clip, if any was ever started.
    pub active: Option<u64>,
    /// Whether the active clip loops.
    pub repeating: bool,
    /// Playback rate in milli-units.
    pub rate: i64,
}

impl AnimatorState {
    /// The state of a freshly discovered animation player: nothing started,
    /// nominal rate.
    pub fn new() -> (st: AnimatorState)
        ensures
            st == (AnimatorState { active: None, repeating: false, rate: MILLI }),
    {
        AnimatorState { active: None, repeating: false, rate: MILLI }
    }
}

/// A command to the engine's animation player: start `clip`, cross-fading
/// over `blend_millis`, looping when `repeat` is set.
#[derive(Clone, Copy, PartialEq, Eq, Structural, Debug)]
pub struct StartClip {
    pub clip: u64,
    pub blend_millis: u64,
    pub repeat: bool,
}

/// What one selector frame asks of the engine: at most one clip start, and
/// a playback rate whenever the actor is in the walk or run band.
#[derive(Clone, Copy, PartialEq, Eq, Debug)]
pub struct AnimationCommands {
    pub start: Option<StartClip>,
    pub rate: Option<i64>,
}

/// The clip role of a motion state: idle at an exact standstill, walk up to
/// half the top speed plus [`WALK_THRESHOLD_SLACK`], run above.
pub open spec fn role_for(m: MotionState) -> ClipRole {
    if m.speed == 0 && m.acceleration == 0 {
        ClipRole::Idle
    } else if m.speed <= m.max_speed as int / 2 + WALK_THRESHOLD_SLACK {
        ClipRole::Walk
    } else {
        ClipRole::Run
    }
}

/// The cross-fade time into a role's clip.
pub open spec fn blend_of(role: ClipRole) -> u64 {
    if role is Idle {
        IDLE_BLEND_MILLIS
    } else {
        MOVE_BLEND_MILLIS
    }
}

/// The playback rate of a motion state: the walk clip runs at
/// `speed / (max_speed / 2)`, the run clip at `speed / max_speed`, in
/// milli-units; the idle clip keeps whatever rate was set before.
pub open spec fn rate_for(m: MotionState) -> Option<i64> {
    match role_for(m) {
        ClipRole::Idle => None,
        ClipRole::Walk => Some(ratio_milli(m.speed as int, m.max_speed as int / 2) as i64),
        ClipRole::Run => Some(ratio_milli(m.speed as int, m.max_speed as int) as i64),
    }
}

/// One selector frame over the mirror `st`: the new mirror and the commands
/// handed to the engine.  A start is issued only when the desired clip is
/// not the active one.
pub open spec fn selected(m: MotionState, b: AnimationBinding, st: AnimatorState) -> (
    AnimatorState,
    AnimationCommands,
) {
    let role = role_for(m);
    let clip = b.clip_for(role);
    let start = if st.active == Some(clip) {
        None
    } else {
        Some(StartClip { clip, blend_millis: blend_of(role), repeat: true })
    };
    let rate = rate_for(m);
    let st2 = AnimatorState {
        active: Some(clip),
        repeating: if start is Some {
            true
        } else {
            st.repeating
        },
        rate: match rate {
            Some(r) => r,
            None => st.rate,
        },
    };
    (st2, AnimationCommands { start, rate })
}

/// Runs the selector for one frame: picks the clip role of `m`, starts the
/// clip if it is not already active, and recomputes the playback rate.
pub fn select(m: &MotionState, b: &AnimationBinding, st: &mut AnimatorState) -> (cmds:
    AnimationCommands)
    requires
        m.wf(),
        b.wf(),
    ensures
        (*final(st), cmds) == selected(*m, *b, *old(st)),
{
    let half: i64 = (m.max_speed as u64 / 2) as i64;
    let role: ClipRole = if m.speed == 0 && m.acceleration == 0 {
        ClipRole::Idle
    } else if m.speed <= half + WALK_THRESHOLD_SLACK {
        ClipRole::Walk
    } else {
        ClipRole::Run
    };
    let clip: u64 = match role {
        ClipRole::Idle => b.idle_clips[b.idle_index],
        ClipRole::Walk => b.walk_clip,
        ClipRole::Run => b.run_clip,
    };
    let already: bool = match st.active {
        Some(c) => c == clip,
        None => false,
    };
    let start: Option<StartClip> = if already {
        None
    } else {
        let blend: u64 = match role {
            ClipRole::Idle => IDLE_BLEND_MILLIS,
            ClipRole::Walk => MOVE_BLEND_MILLIS,
            ClipRole::Run => MOVE_BLEND_MILLIS,
        };
        Some(StartClip { clip, blend_millis: blend, repeat: true })
    };
    let rate: Option<i64> = match role {
        ClipRole::Idle => None,
        ClipRole::Walk => Some(ratio_milli_i64(m.speed, half)),
        ClipRole::Run => Some(ratio_milli_i64(m.speed, m.max_speed)),
    };
    st.active = Some(clip);
    if !already {
        st.repeating = true;
    }
    match rate {
        Some(r) => {
            st.rate = r;
        },
        None => {},
    }
    AnimationCommands { start, rate }
}

/// Whether the mirror reports `clip` as the playing clip.
pub open spec fn reports_playing(st: AnimatorState, clip: u64) -> bool {
    st.active == Some(clip)
}

/// Animation exclusivity: once the selector has run — the active clip is the
/// one of the selected role — exactly one of the idle, walk and run clips
/// reports as playing.
pub proof fn lemma_animation_exclusivity(m: MotionState, b: AnimationBinding, st: AnimatorState)
    requires
        b.wf(),
        st.active == Some(b.clip_for(role_for(m))),
    ensures
        reports_playing(st, b.idle_clip()) || reports_playing(st, b.walk_clip) || reports_playing(
            st,
            b.run_clip,
        ),
        !(reports_playing(st, b.idle_clip()) && reports_playing(st, b.walk_clip)),
        !(reports_playing(st, b.idle_clip()) && reports_playing(st, b.run_clip)),
        !(reports_playing(st, b.walk_clip) && reports_playing(st, b.run_clip)),
{
}

/// Idempotent switching: running the selector a second time in the same
/// frame, with the motion state unchanged, issues no start command and
/// leaves the animator mirror exactly as the first run left it.
pub proof fn lemma_selector_idempotent(m: MotionState, b: AnimationBinding, st: AnimatorState)
    ensures
        ({
            let (st1, c1) = selected(m, b, st);
            let (st2, c2) = selected(m, b, st1);
            st2 == st1 && c2.start is None && c2.rate == c1.rate
        }),
{
}

} // verus!
