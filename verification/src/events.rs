//! The events that the engine hands to its consumers.

use vstd::prelude::*;

verus! {

/// An amount of damage dealt to the target.
#[derive(Debug, Clone, Copy, PartialEq, Eq, Structural)]
pub struct DamageEvent {
    pub amount: i32,
}

/// A damage-over-time effect to install on the target.
#[derive(Debug, Clone, Copy, PartialEq, Eq, Structural)]
pub struct ApplyDotEvent {
    /// Damage of one tick.
    pub dps: i32,
    /// How long the effect lasts, in milliseconds.
    pub duration: u64,
    /// Time between two ticks, in milliseconds.
    pub tick_every: u64,
}

/// A request to alert the player for the given number of milliseconds.
#[derive(Debug, Clone, Copy, PartialEq, Eq, Structural)]
pub struct HudShakeEvent(pub u64);

} // verus!
