//! The enemy script: a fixed, looping schedule of effects on the player's
//! timer state.

use vstd::prelude::*;
use crate::ability::longer;
use crate::events::HudShakeEvent;
use crate::state::{CombatModel, CombatState};

verus! {

/// Alert time that an enrage leaves at least, in milliseconds.
pub const ENRAGE_SHAKE: u64 = 2000;

/// Length of the debuff that an enrage applies, in milliseconds.
pub const ENRAGE_MUDDLED: u64 = 5000;

/// One effect of the enemy script.
#[derive(Debug, Clone, Copy, PartialEq, Eq, Structural)]
pub enum EnemyEvent {
    /// Applies the impairing debuff for `duration` milliseconds.
    Muddled { duration: u64 },
    /// Asks for an alert of `duration` milliseconds.
    HudShake { duration: u64 },
    /// Alerts, impairs and starts the script over.
    Enrage,
}

/// The enemy script and its cursor.
#[derive(Debug)]
pub struct EnemyTimeline {
    /// Milliseconds since the script started or last started over.
    pub t: u64,
    /// Index of the next entry to trigger.
    pub idx: usize,
    /// The schedule: trigger time in milliseconds, and effect.
    pub events: Vec<(u64, EnemyEvent)>,
}

/// The enemy script as a mathematical value.
#[verifier::ext_equal]
pub struct TimelineModel {
    pub t: u64,
    pub idx: nat,
    pub events: Seq<(u64, EnemyEvent)>,
}

impl View for EnemyTimeline {
    type V = TimelineModel;

    open spec fn view(&self) -> TimelineModel {
        TimelineModel { t: self.t, idx: self.idx as nat, events: self.events@ }
    }
}

/// What a run of the script leaves behind: the script, the timer state, and
/// the alerts it asked for in the order of emission.
#[verifier::ext_equal]
pub struct ScriptOutcome {
    pub timeline: TimelineModel,
    pub state: CombatModel,
    pub shakes: Seq<HudShakeEvent>,
}

/// The schedule that a script without entries is given.
pub open spec fn default_events() -> Seq<(u64, EnemyEvent)> {
    seq![
        (3000u64, EnemyEvent::HudShake { duration: 1000 }),
        (6000u64, EnemyEvent::Muddled { duration: 8000 }),
        (15000u64, EnemyEvent::HudShake { duration: 1500 }),
        (25000u64, EnemyEvent::Enrage),
    ]
}

/// The longest alert among `shakes`; zero if there is none.
pub open spec fn longest_shake(shakes: Seq<HudShakeEvent>) -> u64
    decreases shakes.len(),
{
    if shakes.len() == 0 {
        0
    } else {
        longer(longest_shake(shakes.drop_last()), shakes.last().0)
    }
}

impl TimelineModel {
    /// A script without entries gets the default schedule and starts at zero.
    pub open spec fn with_default_events(self) -> TimelineModel {
        if self.events.len() == 0 {
            TimelineModel { t: 0, idx: 0, events: default_events() }
        } else {
            self
        }
    }

    /// Whether the entry under the cursor has reached its trigger time.
    pub open spec fn due(self) -> bool {
        self.idx < self.events.len() && self.events[self.idx as int].0 <= self.t
    }

    /// Triggers the entries under the cursor for as long as they are due.
    ///
    /// A debuff entry overwrites the debuff, an alert entry emits an alert,
    /// and the cursor moves on. An enrage raises the alert time to at least
    /// `ENRAGE_SHAKE`, sets the debuff to `ENRAGE_MUDDLED`, puts clock and
    /// cursor back to zero and ends the run.
    pub open spec fn play(self, state: CombatModel) -> ScriptOutcome
        decreases self.events.len() - self.idx,
    {
        if !self.due() {
            ScriptOutcome { timeline: self, state, shakes: Seq::empty() }
        } else {
            let next = TimelineModel { idx: self.idx + 1, ..self };
            match self.events[self.idx as int].1 {
                EnemyEvent::Muddled { duration } => next.play(
                    CombatModel { muddled: Some(duration), ..state },
                ),
                EnemyEvent::HudShake { duration } => {
                    let rest = next.play(state);
                    ScriptOutcome { shakes: seq![HudShakeEvent(duration)] + rest.shakes, ..rest }
                },
                EnemyEvent::Enrage => ScriptOutcome {
                    timeline: TimelineModel { t: 0, idx: 0, ..self },
                    state: CombatModel {
                        hud_shake_remaining: longer(state.hud_shake_remaining, ENRAGE_SHAKE),
                        muddled: Some(ENRAGE_MUDDLED),
                        ..state
                    },
                    shakes: Seq::empty(),
                },
            }
        }
    }

    /// The script after `dt` more milliseconds: its clock moves on by `dt`
    /// and the entries that are due trigger.
    pub open spec fn advance(self, dt: u64, state: CombatModel) -> ScriptOutcome {
        let armed = self.with_default_events();
        TimelineModel { t: (armed.t + dt) as u64, ..armed }.play(state)
    }
}

impl CombatModel {
    /// The state after the alerts `shakes` have arrived: the alert time is
    /// the longest of what was pending and what arrived.
    pub open spec fn alerted(self, shakes: Seq<HudShakeEvent>) -> CombatModel {
        CombatModel {
            hud_shake_remaining: longer(self.hud_shake_remaining, longest_shake(shakes)),
            ..self
        }
    }
}

impl Default for EnemyTimeline {
    /// A script without entries, at time zero.
    fn default() -> (timeline: EnemyTimeline)
        ensures
            timeline@ == (TimelineModel { t: 0, idx: 0, events: Seq::empty() }),
    {
        EnemyTimeline { t: 0, idx: 0, events: Vec::new() }
    }
}

impl EnemyTimeline {
    /// Gives a script without entries the default schedule and puts its
    /// clock and cursor to zero. A script with entries is left as it is.
    pub fn ensure_default_events(&mut self)
        ensures
            final(self)@ == old(self)@.with_default_events(),
    {
        if self.events.len() == 0 {
            let mut events: Vec<(u64, EnemyEvent)> = Vec::new();
            events.push((3000, EnemyEvent::HudShake { duration: 1000 }));
            events.push((6000, EnemyEvent::Muddled { duration: 8000 }));
            events.push((15000, EnemyEvent::HudShake { duration: 1500 }));
            events.push((25000, EnemyEvent::Enrage));
            self.events = events;
            self.t = 0;
            self.idx = 0;
        }
    }
}

/// Moves the enemy script on by `dt` milliseconds and triggers what is due.
/// Alerts that the script asks for go to `shake_writer`.
pub fn run_enemy_timeline(
    dt: u64,
    timeline: &mut EnemyTimeline,
    combat: &mut CombatState,
    shake_writer: &mut Vec<HudShakeEvent>,
)
    requires
        old(timeline)@.with_default_events().t + dt <= u64::MAX,
    ensures
        final(timeline)@ == old(timeline)@.advance(dt, old(combat)@).timeline,
        final(combat)@ == old(timeline)@.advance(dt, old(combat)@).state,
        final(shake_writer)@ == old(shake_writer)@ + old(timeline)@.advance(
            dt,
            old(combat)@,
        ).shakes,
{
    timeline.ensure_default_events();
    timeline.t = timeline.t + dt;
    let ghost goal = old(timeline)@.advance(dt, old(combat)@);
    let mut restarted = false;
    while !restarted && timeline.idx < timeline.events.len() && timeline.t
        >= timeline.events[timeline.idx].0
        invariant
            !restarted ==> timeline@.play(combat@).timeline == goal.timeline,
            !restarted ==> timeline@.play(combat@).state == goal.state,
            !restarted ==> shake_writer@ + timeline@.play(combat@).shakes == old(shake_writer)@
                + goal.shakes,
            restarted ==> timeline@ == goal.timeline,
            restarted ==> combat@ == goal.state,
            restarted ==> shake_writer@ == old(shake_writer)@ + goal.shakes,
        decreases
            if restarted {
                0
            } else {
                timeline.events.len() - timeline.idx + 1
            },
    {
        let (_, event) = timeline.events[timeline.idx];
        match event {
            EnemyEvent::Muddled { duration } => {
                combat.muddled = Some(duration);
                timeline.idx = timeline.idx + 1;
            },
            EnemyEvent::HudShake { duration } => {
                shake_writer.push(HudShakeEvent(duration));
                timeline.idx = timeline.idx + 1;
            },
            EnemyEvent::Enrage => {
                if combat.hud_shake_remaining < ENRAGE_SHAKE {
                    combat.hud_shake_remaining = ENRAGE_SHAKE;
                }
                combat.muddled = Some(ENRAGE_MUDDLED);
                timeline.t = 0;
                timeline.idx = 0;
                restarted = true;
            },
        }
    }
}

/// Takes in the alerts of a tick: the pending alert time becomes the longest
/// of itself and the alerts that arrived.
pub fn apply_hud_shake(events: &Vec<HudShakeEvent>, combat: &mut CombatState)
    ensures
        final(combat)@ == old(combat)@.alerted(events@),
{
    let ghost before = combat@;
    let mut i: usize = 0;
    while i < events.len()
        invariant
            i <= events.len(),
            combat@ == before.alerted(events@.take(i as int)),
        decreases events.len() - i,
    {
        let HudShakeEvent(duration) = events[i];
        if combat.hud_shake_remaining < duration {
            combat.hud_shake_remaining = duration;
        }
        proof {
            assert(events@.take(i + 1).drop_last() == events@.take(i as int));
        }
        i += 1;
    }
    proof {
        assert(events@.take(i as int) == events@);
    }
}

} // verus!
