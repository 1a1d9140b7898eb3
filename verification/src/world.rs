//! The data model: plain-value stand-ins for what the host engine hands the
//! jump controller each frame.
//!
//! Velocities and the jump impulse are fixed-point integers; the embedding
//! chooses the scale (the frame driver uses thousandths of a world unit per
//! second). The controller only copies and compares these values, so the
//! scale never enters the logic.

use vstd::prelude::*;

verus! {

/// Handle of an entity in the host engine's world. The controller only ever
/// compares handles for equality.
#[derive(Clone, Copy, Debug, PartialEq, Eq, Structural)]
pub struct EntityId {
    pub id: u64,
}

/// Marker for the controllable character; carries no data.
#[derive(Clone, Copy, Debug, PartialEq, Eq, Structural)]
pub struct Player;

/// Linear velocity of a rigid body, as fixed-point components.
#[derive(Clone, Copy, Debug, PartialEq, Eq, Structural)]
pub struct Velocity {
    pub x: i64,
    pub y: i64,
}

/// Jump state attached to the player entity: the fixed impulse assigned on a
/// jump, and whether the player is currently flagged as airborne.
#[derive(Clone, Copy, Debug, PartialEq, Eq, Structural)]
pub struct Jumper {
    pub jump_impulse: i64,
    pub is_jumping: bool,
}

/// Pressed state of the two logical keys the jump controller reads.
#[derive(Clone, Copy, Debug, PartialEq, Eq, Structural)]
pub struct KeyboardInput {
    pub up_pressed: bool,
    pub space_pressed: bool,
}

/// A contact notification from the physics engine: the two colliding entities
/// and whether the contact started or stopped. Consumed, never produced, by
/// this library.
#[derive(Clone, Copy, Debug, PartialEq, Eq, Structural)]
pub enum ContactEvent {
    Started(EntityId, EntityId),
    Stopped(EntityId, EntityId),
}

impl Jumper {
    /// A freshly spawned jumper is grounded and carries the configured
    /// impulse.
    pub fn new(jump_impulse: i64) -> (jumper: Jumper)
        ensures
            jumper.jump_impulse == jump_impulse,
            !jumper.is_jumping,
    {
        Jumper { jump_impulse, is_jumping: false }
    }
}

} // verus!
