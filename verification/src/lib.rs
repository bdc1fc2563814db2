//! Core logic of a small 3D action-game prototype: kinematic motion
//! integration with a clamped speed and a stall deadband, chase behaviour for
//! pursuing enemies, an idle/walk/run animation selector with smoothed
//! transitions, lazy linking of animation players to their owning actors, and
//! a frame-stepped world that runs those systems in a fixed order.
//!
//! The engine around it (rendering, physics resolution, asset loading, input)
//! is a collaborator: it samples positions and key states, hands them in as
//! plain values once per frame, and carries the returned movement and
//! animation commands back out.  Everything here works on fixed-point
//! integers — thousandths of a world unit, milliseconds of time — so every
//! frame computation is exact and verified.

pub mod animation;
pub mod chase;
pub mod control;
pub mod fixed;
pub mod history;
pub mod link;
pub mod motion;
pub mod states;
pub mod world;
