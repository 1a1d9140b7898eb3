//! A verified jump controller for a small 2-D platformer.
//!
//! The host game engine owns the window, the renderer, the physics solver and
//! input polling. This library holds the one piece of game logic: the jump
//! state machine. Each frame the controller reads the keyboard state and may
//! assign the player's vertical velocity; a separate listener consumes
//! contact-start events from the physics engine and clears the jumping flag
//! when the player entity is one of the two contacting bodies.
//!
//! Entities, velocities and contact events are modelled as plain values
//! ([`world`]); the frame driver converts between these and the engine's own
//! types at the boundary.

pub mod control;
pub mod world;
