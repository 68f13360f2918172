//! A combat session: its reset, and the player's side of one tick as a fixed
//! sequence of phases.

use vstd::prelude::*;
use crate::ability::{AbilityBook, AbilityId};
use crate::events::{ApplyDotEvent, DamageEvent, HudShakeEvent};
use crate::resolve::{
    handle_ability_input, process_buffered_ability, process_cast_completion, process_gcd_queue,
    Outcome,
};
use crate::state::{tick_combat_timers, CombatModel, CombatState};
use crate::timeline::{apply_hud_shake, run_enemy_timeline, EnemyTimeline, TimelineModel};

verus! {

impl CombatModel {
    /// The player's side of one tick, in this order: the timers age by `dt`,
    /// a cast that has run to its end resolves, the requests `ids` are
    /// resolved, the buffered request is looked at again, and then the
    /// queued one.
    pub open spec fn step(self, dt: u64, book: AbilityBook, ids: Seq<AbilityId>) -> Outcome {
        let completed = self.aged(dt).complete_cast(book);
        let requested = completed.followed_by(completed.state.requests(book, ids));
        let buffered = requested.followed_by(requested.state.recheck_buffer(book));
        buffered.followed_by(buffered.state.recheck_queue(book))
    }
}

/// A combat session as a mathematical value: the timer state and the enemy
/// script.
#[verifier::ext_equal]
pub struct SessionModel {
    pub state: CombatModel,
    pub timeline: TimelineModel,
}

/// What one tick is given: the elapsed time in milliseconds and the
/// abilities asked for, in order.
#[verifier::ext_equal]
pub struct TickInput {
    pub dt: u64,
    pub requests: Seq<AbilityId>,
}

/// What one tick of a session leaves behind: the session, and the events it
/// emitted in the order of emission.
#[verifier::ext_equal]
pub struct TickOutcome {
    pub session: SessionModel,
    pub damage: Seq<DamageEvent>,
    pub dots: Seq<ApplyDotEvent>,
    pub shakes: Seq<HudShakeEvent>,
}

impl SessionModel {
    /// A session at its start, with the enemy script `timeline`.
    pub open spec fn start(timeline: TimelineModel) -> SessionModel {
        SessionModel { state: CombatModel::initial(), timeline }
    }

    /// One whole tick: the player's side, then the enemy script moves on by
    /// the same time, then the alerts that the script asked for are taken in.
    pub open spec fn tick(self, book: AbilityBook, input: TickInput) -> TickOutcome {
        let stepped = self.state.step(input.dt, book, input.requests);
        let played = self.timeline.advance(input.dt, stepped.state);
        TickOutcome {
            session: SessionModel {
                state: played.state.alerted(played.shakes),
                timeline: played.timeline,
            },
            damage: stepped.damage,
            dots: stepped.dots,
            shakes: played.shakes,
        }
    }

    /// The session after the ticks `inputs`, one after the other.
    pub open spec fn after(self, book: AbilityBook, inputs: Seq<TickInput>) -> SessionModel
        decreases inputs.len(),
    {
        if inputs.len() == 0 {
            self
        } else {
            self.after(book, inputs.drop_last()).tick(book, inputs.last()).session
        }
    }
}

/// Puts the timer state back to the start of a session.
pub fn reset_combat(combat: &mut CombatState)
    ensures
        final(combat)@ == CombatModel::initial(),
{
    *combat = CombatState::default();
}

/// Puts a session back to its start: the timer state as at the start, and
/// the enemy script at time zero without entries, so that its next run
/// gives it the default schedule.
pub fn reset_session(combat: &mut CombatState, timeline: &mut EnemyTimeline)
    ensures
        (SessionModel { state: final(combat)@, timeline: final(timeline)@ }) == SessionModel::start(
            TimelineModel { t: 0, idx: 0, events: Seq::empty() },
        ),
{
    *combat = CombatState::default();
    *timeline = EnemyTimeline::default();
}

/// Runs the player's side of one tick: ages the timers by `dt`, resolves a
/// finished cast, resolves the requests of the tick in the order given, and
/// looks again at the buffered and at the queued request.
pub fn step_combat(
    dt: u64,
    requests: &Vec<AbilityId>,
    book: &AbilityBook,
    combat: &mut CombatState,
    dmg_writer: &mut Vec<DamageEvent>,
    dot_writer: &mut Vec<ApplyDotEvent>,
)
    ensures
        final(combat)@ == old(combat)@.step(dt, *book, requests@).state,
        final(dmg_writer)@ == old(dmg_writer)@ + old(combat)@.step(dt, *book, requests@).damage,
        final(dot_writer)@ == old(dot_writer)@ + old(combat)@.step(dt, *book, requests@).dots,
{
    tick_combat_timers(dt, combat);
    process_cast_completion(book, combat, dmg_writer, dot_writer);
    handle_ability_input(requests, book, combat, dmg_writer, dot_writer);
    process_buffered_ability(book, combat, dmg_writer, dot_writer);
    process_gcd_queue(book, combat, dmg_writer, dot_writer);
}

/// Runs one whole tick of a session: the player's side, then the enemy
/// script, then the alerts of the script are taken into the timer state. The
/// alerts also go to `shake_writer`, for whoever shows them.
pub fn step_session(
    dt: u64,
    requests: &Vec<AbilityId>,
    book: &AbilityBook,
    combat: &mut CombatState,
    timeline: &mut EnemyTimeline,
    dmg_writer: &mut Vec<DamageEvent>,
    dot_writer: &mut Vec<ApplyDotEvent>,
    shake_writer: &mut Vec<HudShakeEvent>,
)
    requires
        old(timeline)@.with_default_events().t + dt <= u64::MAX,
    ensures
        ({
            let before = SessionModel { state: old(combat)@, timeline: old(timeline)@ };
            let outcome = before.tick(*book, TickInput { dt, requests: requests@ });
            &&& final(combat)@ == outcome.session.state
            &&& final(timeline)@ == outcome.session.timeline
            &&& final(dmg_writer)@ == old(dmg_writer)@ + outcome.damage
            &&& final(dot_writer)@ == old(dot_writer)@ + outcome.dots
            &&& final(shake_writer)@ == old(shake_writer)@ + outcome.shakes
        }),
{
    step_combat(dt, requests, book, combat, dmg_writer, dot_writer);
    let mut shakes: Vec<HudShakeEvent> = Vec::new();
    run_enemy_timeline(dt, timeline, combat, &mut shakes);
    apply_hud_shake(&shakes, combat);
    shake_writer.append(&mut shakes);
}

} // verus!
