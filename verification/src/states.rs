//! Top-level game state.
//!
//! The game starts loading its scene and animation assets in the
//! background, polls their readiness once per frame, and switches to
//! playing exactly when the asset collaborator reports everything loaded
//! with its dependencies.  The per-frame systems only run while playing.

use vstd::prelude::*;

verus! {

/// The game's top-level state.
#[derive(Clone, Copy, PartialEq, Eq, Structural, Debug)]
pub enum GameState {
    /// Assets are still streaming in; gameplay systems do not run.
    Loading,
    /// Assets are ready; the per-frame systems run.
    Playing,
    /// The session has ended.
    GameOver,
}

/// One frame of the loading poll: loading becomes playing exactly when the
/// assets are ready; any other state is left alone.
pub open spec fn polled(s: GameState, assets_ready: bool) -> GameState {
    if s is Loading && assets_ready {
        GameState::Playing
    } else {
        s
    }
}

/// Polls the asset readiness signal once: the loading state advances to
/// playing exactly when the signal is set, and no other transition happens.
pub fn poll_loading(s: GameState, assets_ready: bool) -> (r: GameState)
    ensures
        r == polled(s, assets_ready),
        (s is Loading && assets_ready) ==> r is Playing,
        !(s is Loading && assets_ready) ==> r == s,
{
    match s {
        GameState::Loading => if assets_ready {
            GameState::Playing
        } else {
            GameState::Loading
        },
        GameState::Playing => GameState::Playing,
        GameState::GameOver => GameState::GameOver,
    }
}

} // verus!
