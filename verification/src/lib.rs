//! Timing engine of an action-combat loop.
//!
//! The engine decides, tick by tick, whether a requested ability starts now,
//! waits in the queue for the next slot of the shared rhythm, is kept in a
//! short-lived buffer, and what a started ability does: cooldowns, the rhythm
//! clock, the animation lock, buffs, and the damage it hands to the target.
//! An enemy script works on the same timers.
//!
//! Every duration is a whole number of milliseconds. One [`CombatState`]
//! holds the timers of a session. The engine moves it forward in fixed
//! phases: the timers age, a cast that has run to its end resolves, fresh
//! requests are resolved, the buffered and the queued request are looked at
//! again, and the enemy script moves on. Each phase is a function whose
//! contract says exactly what it leaves behind, over the mathematical view of
//! the state; [`step_combat`] and [`step_session`] run them in order.
//!
//! - [`ability`]: the identifiers and the catalog of timing profiles.
//! - [`state`]: the timer state, its view, and the aging of the timers.
//! - [`resolve`]: requests, starts and the effects of abilities.
//! - [`timeline`]: the enemy script.
//! - [`session`]: the phases of a tick in order.
//! - [`world`]: the target's health and its damage-over-time effect.
//! - [`events`]: what the engine emits.
//! - [`bounds`]: the bounds that every state of a session keeps.
//! - [`laws`]: what relates the steps of the engine to each other.

pub mod ability;
pub mod bounds;
pub mod events;
pub mod laws;
pub mod resolve;
pub mod session;
pub mod state;
pub mod timeline;
pub mod world;

pub use ability::{Ability, AbilityBook, AbilityId, ABILITY_COUNT};
pub use events::{ApplyDotEvent, DamageEvent, HudShakeEvent};
pub use resolve::{
    handle_ability_input, process_buffered_ability, process_cast_completion, process_gcd_queue,
    resolve_ability, start_cast_or_instant, try_use_or_buffer, Decision, BURN_DPS, BURN_DURATION,
    BURN_TICK_EVERY, RAGING_WINDOW, SWIFTCAST_WINDOW,
};
pub use session::{reset_combat, reset_session, step_combat, step_session};
pub use state::{
    tick_combat_timers, CastState, CombatState, BUFFER_GRACE, GCD_LENGTH, GCD_QUEUE_WINDOW,
};
pub use timeline::{
    apply_hud_shake, run_enemy_timeline, EnemyEvent, EnemyTimeline, ENRAGE_MUDDLED, ENRAGE_SHAKE,
};
pub use world::{handle_apply_dot_events, handle_damage_events, tick_dots, DotEffect, Health};
