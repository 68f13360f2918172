//! The bounds that the timers keep. A state within them is called sound, and
//! every step of the engine keeps a sound state sound: so is every state of
//! a session, whatever the elapsed times and the requests.

use vstd::prelude::*;
use crate::ability::{longer, longest_lock_among, Ability, AbilityBook, AbilityId};
use crate::events::HudShakeEvent;
use crate::laws::{lemma_aging_lowers, lemma_longest_shake};
use crate::resolve::{RAGING_WINDOW, SWIFTCAST_WINDOW};
use crate::session::{SessionModel, TickInput};
use crate::state::{CombatModel, BUFFER_GRACE, GCD_LENGTH};
use crate::timeline::{EnemyEvent, TimelineModel, ENRAGE_MUDDLED, ENRAGE_SHAKE};

verus! {

/// Whether timer `a` stands no higher than timer `b`: it is unset, or both
/// are set and `a` has no more time left.
pub open spec fn timer_no_higher(a: Option<u64>, b: Option<u64>) -> bool {
    a matches Some(x) ==> (b matches Some(y) && x <= y)
}

/// The debuff time that script entry `e` can leave.
pub open spec fn debuff_of(e: EnemyEvent) -> u64 {
    match e {
        EnemyEvent::Muddled { duration } => duration,
        EnemyEvent::HudShake { .. } => 0,
        EnemyEvent::Enrage => ENRAGE_MUDDLED,
    }
}

/// The alert time that script entry `e` can leave.
pub open spec fn alert_of(e: EnemyEvent) -> u64 {
    match e {
        EnemyEvent::Muddled { .. } => 0,
        EnemyEvent::HudShake { duration } => duration,
        EnemyEvent::Enrage => ENRAGE_SHAKE,
    }
}

/// The longest debuff time that an entry of `events` can leave.
pub open spec fn longest_debuff(events: Seq<(u64, EnemyEvent)>) -> u64
    decreases events.len(),
{
    if events.len() == 0 {
        0
    } else {
        longer(longest_debuff(events.drop_last()), debuff_of(events.last().1))
    }
}

/// The longest alert time that an entry of `events` can leave.
pub open spec fn longest_alert(events: Seq<(u64, EnemyEvent)>) -> u64
    decreases events.len(),
{
    if events.len() == 0 {
        0
    } else {
        longer(longest_alert(events.drop_last()), alert_of(events.last().1))
    }
}

impl CombatModel {
    /// Every timer that the player's abilities set is within its natural
    /// maximum: the rhythm clock within the rhythm length, a cast within its
    /// full length and that within the ability's cast time, a cooldown
    /// within the ability's cooldown, the buffer within its grace time, the
    /// animation lock within the longest lock of the catalog, and each buff
    /// within its window.
    pub open spec fn within_bounds(self, book: AbilityBook) -> bool {
        &&& self.gcd_remaining <= GCD_LENGTH
        &&& (self.cast matches Some(c) ==> c.remaining <= c.total && c.total <= book.profile(
            c.ability,
        ).cast_time)
        &&& (forall|id: AbilityId| #[trigger]
            self.ability_cds.dom().contains(id) ==> self.ability_cds[id] <= book.profile(
                id,
            ).cooldown)
        &&& (self.buffer matches Some((_, left)) ==> left <= BUFFER_GRACE)
        &&& self.ani_lock_remaining <= book.longest_ani_lock()
        &&& (self.swiftcast_remaining matches Some(left) ==> left <= SWIFTCAST_WINDOW)
        &&& (self.raging_remaining matches Some(left) ==> left <= RAGING_WINDOW)
    }

    /// Every timer that the enemy script sets is within its natural maximum:
    /// the debuff and the alert within the longest that an entry of `events`
    /// can leave.
    pub open spec fn within_script(self, events: Seq<(u64, EnemyEvent)>) -> bool {
        &&& (self.muddled matches Some(left) ==> left <= longest_debuff(events))
        &&& self.hud_shake_remaining <= longest_alert(events)
    }

    /// The state is within all its bounds, with the catalog `book` and the
    /// enemy script `events`, and the clipping flag covers the weave count.
    pub open spec fn sound(self, book: AbilityBook, events: Seq<(u64, EnemyEvent)>) -> bool {
        &&& self.within_bounds(book)
        &&& self.within_script(events)
        &&& self.clip_flagged()
    }

    /// More than two weaves in the window never go without the clipping flag.
    pub open spec fn clip_flagged(self) -> bool {
        self.weaves_in_current_gcd > 2 ==> self.clipped
    }

    /// No buff, debuff or buffered request stands at zero: what has run out
    /// is unset.
    pub open spec fn settled(self) -> bool {
        &&& (self.buffer matches Some((_, left)) ==> left > 0)
        &&& (self.muddled matches Some(left) ==> left > 0)
        &&& (self.swiftcast_remaining matches Some(left) ==> left > 0)
        &&& (self.raging_remaining matches Some(left) ==> left > 0)
    }

    /// Whether no timer of `self` stands higher than the same timer of
    /// `other`, and the two states hold the same cast and the same pending
    /// requests as far as `self` still holds them.
    pub open spec fn no_higher_than(self, other: CombatModel) -> bool {
        &&& self.gcd_remaining <= other.gcd_remaining
        &&& match self.cast {
            Some(c) => other.cast matches Some(d) && c.ability == d.ability && c.total == d.total
                && c.remaining <= d.remaining,
            None => other.cast is None,
        }
        &&& self.ability_cds.dom() == other.ability_cds.dom()
        &&& (forall|id: AbilityId| #[trigger]
            self.ability_cds.dom().contains(id) ==> self.ability_cds[id] <= other.ability_cds[id])
        &&& (self.buffer matches Some((id, left)) ==> (other.buffer matches Some((before, more))
            && id == before && left <= more))
        &&& timer_no_higher(self.muddled, other.muddled)
        &&& self.hud_shake_remaining <= other.hud_shake_remaining
        &&& self.ani_lock_remaining <= other.ani_lock_remaining
        &&& timer_no_higher(self.swiftcast_remaining, other.swiftcast_remaining)
        &&& timer_no_higher(self.raging_remaining, other.raging_remaining)
    }
}

/// No animation lock of the catalog is longer than the catalog's longest.
pub proof fn lemma_lock_within_longest(book: AbilityBook, id: AbilityId)
    ensures
        book.profile(id).ani_lock <= book.longest_ani_lock(),
{
    lemma_longest_lock_among(book.by_id@, id.spec_index());
}

proof fn lemma_longest_lock_among(profiles: Seq<Ability>, i: int)
    requires
        0 <= i < profiles.len(),
    ensures
        profiles[i].ani_lock <= longest_lock_among(profiles),
    decreases profiles.len(),
{
    if i < profiles.len() - 1 {
        lemma_longest_lock_among(profiles.drop_last(), i);
    }
}

/// No debuff or alert time of a script entry is longer than the longest of
/// the script.
pub proof fn lemma_entry_within_longest(events: Seq<(u64, EnemyEvent)>, i: int)
    requires
        0 <= i < events.len(),
    ensures
        debuff_of(events[i].1) <= longest_debuff(events),
        alert_of(events[i].1) <= longest_alert(events),
    decreases events.len(),
{
    if i < events.len() - 1 {
        lemma_entry_within_longest(events.drop_last(), i);
    }
}

/// A state that stands no higher than one within the bounds is within the
/// bounds itself.
pub proof fn lemma_lower_stays_within(
    low: CombatModel,
    high: CombatModel,
    book: AbilityBook,
    events: Seq<(u64, EnemyEvent)>,
)
    requires
        low.no_higher_than(high),
    ensures
        high.within_bounds(book) ==> low.within_bounds(book),
        high.within_script(events) ==> low.within_script(events),
{
}

/// The state at the start of a session is sound and settled.
pub proof fn lemma_initial_sound(book: AbilityBook, events: Seq<(u64, EnemyEvent)>)
    ensures
        CombatModel::initial().sound(book, events),
        CombatModel::initial().settled(),
{
}

/// A tick keeps a sound state sound.
pub proof fn lemma_aging_keeps_sound(
    s: CombatModel,
    book: AbilityBook,
    events: Seq<(u64, EnemyEvent)>,
    dt: u64,
)
    requires
        s.sound(book, events),
    ensures
        s.aged(dt).sound(book, events),
{
    lemma_aging_lowers(s, dt);
    lemma_lower_stays_within(s.aged(dt), s, book, events);
}

/// Resolving an ability of the catalog keeps a sound state sound, and a
/// settled state settled.
pub proof fn lemma_resolve_keeps_sound(
    s: CombatModel,
    book: AbilityBook,
    events: Seq<(u64, EnemyEvent)>,
    ability: Ability,
)
    requires
        book.lists(ability),
    ensures
        s.sound(book, events) ==> s.resolve(ability).state.sound(book, events),
        s.settled() ==> s.resolve(ability).state.settled(),
{
    lemma_lock_within_longest(book, ability.id);
}

/// Starting an ability of the catalog keeps a sound state sound, and a
/// settled state settled.
pub proof fn lemma_start_keeps_sound(
    s: CombatModel,
    book: AbilityBook,
    events: Seq<(u64, EnemyEvent)>,
    ability: Ability,
)
    requires
        book.lists(ability),
    ensures
        s.sound(book, events) ==> s.start(ability).state.sound(book, events),
        s.settled() ==> s.start(ability).state.settled(),
{
    lemma_resolve_keeps_sound(s, book, events, ability);
    lemma_resolve_keeps_sound(
        CombatModel { swiftcast_remaining: None, ..s },
        book,
        events,
        ability,
    );
}

/// A request for an ability of the catalog keeps a sound state sound, and a
/// settled state settled.
pub proof fn lemma_request_keeps_sound(
    s: CombatModel,
    book: AbilityBook,
    events: Seq<(u64, EnemyEvent)>,
    ability: Ability,
)
    requires
        book.lists(ability),
    ensures
        s.sound(book, events) ==> s.request(ability).state.sound(book, events),
        s.settled() ==> s.request(ability).state.settled(),
{
    lemma_start_keeps_sound(s, book, events, ability);
}

/// The requests of a tick keep a sound state sound, and a settled state
/// settled.
pub proof fn lemma_requests_keep_sound(
    s: CombatModel,
    book: AbilityBook,
    events: Seq<(u64, EnemyEvent)>,
    ids: Seq<AbilityId>,
)
    requires
        book.wf(),
    ensures
        s.sound(book, events) ==> s.requests(book, ids).state.sound(book, events),
        s.settled() ==> s.requests(book, ids).state.settled(),
    decreases ids.len(),
{
    if ids.len() > 0 {
        lemma_requests_keep_sound(s, book, events, ids.drop_last());
        lemma_request_keeps_sound(
            s.requests(book, ids.drop_last()).state,
            book,
            events,
            book.profile(ids.last()),
        );
    }
}

/// The three looks at what is pending (the cast that has run to its end, the
/// buffered request, the queued request) keep a sound state sound, and a
/// settled state settled.
pub proof fn lemma_rechecks_keep_sound(
    s: CombatModel,
    book: AbilityBook,
    events: Seq<(u64, EnemyEvent)>,
)
    requires
        book.wf(),
    ensures
        s.sound(book, events) ==> s.complete_cast(book).state.sound(book, events),
        s.sound(book, events) ==> s.recheck_buffer(book).state.sound(book, events),
        s.sound(book, events) ==> s.recheck_queue(book).state.sound(book, events),
        s.settled() ==> s.complete_cast(book).state.settled(),
        s.settled() ==> s.recheck_buffer(book).state.settled(),
        s.settled() ==> s.recheck_queue(book).state.settled(),
{
    if let Some(c) = s.cast {
        lemma_resolve_keeps_sound(s, book, events, book.profile(c.ability));
    }
    if let Some((id, _)) = s.buffer {
        lemma_start_keeps_sound(CombatModel { buffer: None, ..s }, book, events, book.profile(id));
    }
    if let Some(id) = s.gcd_queue {
        lemma_start_keeps_sound(
            CombatModel { gcd_queue: None, ..s },
            book,
            events,
            book.profile(id),
        );
    }
}

/// The player's side of a tick keeps a sound state sound, and leaves the
/// state settled.
pub proof fn lemma_step_keeps_sound(
    s: CombatModel,
    book: AbilityBook,
    events: Seq<(u64, EnemyEvent)>,
    dt: u64,
    ids: Seq<AbilityId>,
)
    requires
        book.wf(),
    ensures
        s.sound(book, events) ==> s.step(dt, book, ids).state.sound(book, events),
        s.step(dt, book, ids).state.settled(),
{
    let aged = s.aged(dt);
    lemma_aging_lowers(s, dt);
    if s.sound(book, events) {
        lemma_aging_keeps_sound(s, book, events, dt);
    }
    lemma_rechecks_keep_sound(aged, book, events);
    let completed = aged.complete_cast(book).state;
    lemma_requests_keep_sound(completed, book, events, ids);
    let requested = completed.requests(book, ids).state;
    lemma_rechecks_keep_sound(requested, book, events);
    let buffered = requested.recheck_buffer(book).state;
    lemma_rechecks_keep_sound(buffered, book, events);
}

/// A run of the script touches the debuff and the alert time and nothing
/// else of the timer state, leaves its schedule as it is, and asks for no
/// alert longer than the longest of the script. It keeps a sound state
/// sound.
pub proof fn lemma_play_keeps_sound(script: TimelineModel, s: CombatModel, book: AbilityBook)
    ensures
        script.play(s).timeline.events == script.events,
        script.play(s).state == (CombatModel {
            muddled: script.play(s).state.muddled,
            hud_shake_remaining: script.play(s).state.hud_shake_remaining,
            ..s
        }),
        forall|i: int|
            0 <= i < script.play(s).shakes.len() ==> (#[trigger] script.play(s).shakes[i]).0
                <= longest_alert(script.events),
        s.sound(book, script.events) ==> script.play(s).state.sound(book, script.events),
    decreases script.events.len() - script.idx,
{
    if script.due() {
        let next = TimelineModel { idx: script.idx + 1, ..script };
        lemma_entry_within_longest(script.events, script.idx as int);
        match script.events[script.idx as int].1 {
            EnemyEvent::Muddled { duration } => {
                lemma_play_keeps_sound(next, CombatModel { muddled: Some(duration), ..s }, book);
            },
            EnemyEvent::HudShake { duration } => {
                lemma_play_keeps_sound(next, s, book);
            },
            EnemyEvent::Enrage => {},
        }
    }
}

/// Taking in alerts that the script asked for keeps a sound state sound.
pub proof fn lemma_alerts_keep_sound(
    s: CombatModel,
    book: AbilityBook,
    events: Seq<(u64, EnemyEvent)>,
    shakes: Seq<HudShakeEvent>,
)
    requires
        s.sound(book, events),
        forall|i: int| 0 <= i < shakes.len() ==> (#[trigger] shakes[i]).0 <= longest_alert(events),
    ensures
        s.alerted(shakes).sound(book, events),
{
    lemma_longest_shake(shakes);
}

/// One whole tick of a session keeps a sound state sound: the bounds are
/// those of the catalog and of the schedule that the script runs, which a
/// tick never changes.
pub proof fn lemma_tick_keeps_sound(session: SessionModel, book: AbilityBook, input: TickInput)
    requires
        book.wf(),
    ensures
        session.tick(book, input).session.timeline.events
            == session.timeline.with_default_events().events,
        session.tick(book, input).session.timeline.events.len() > 0,
        session.state.sound(book, session.timeline.with_default_events().events)
            ==> session.tick(book, input).session.state.sound(
            book,
            session.timeline.with_default_events().events,
        ),
{
    let events = session.timeline.with_default_events().events;
    let stepped = session.state.step(input.dt, book, input.requests).state;
    lemma_step_keeps_sound(session.state, book, events, input.dt, input.requests);
    let armed = session.timeline.with_default_events();
    let wound = TimelineModel { t: (armed.t + input.dt) as u64, ..armed };
    lemma_play_keeps_sound(wound, stepped, book);
    if session.state.sound(book, events) {
        let played = wound.play(stepped);
        lemma_alerts_keep_sound(played.state, book, events, played.shakes);
    }
}

/// Every state of a session is sound: from the start, over any sequence of
/// ticks with any elapsed times and any requests, each timer stays within
/// its natural maximum and the clipping flag covers the weave count.
pub proof fn lemma_session_stays_sound(
    timeline: TimelineModel,
    book: AbilityBook,
    inputs: Seq<TickInput>,
)
    requires
        book.wf(),
    ensures
        SessionModel::start(timeline).after(book, inputs).state.sound(
            book,
            timeline.with_default_events().events,
        ),
        SessionModel::start(timeline).after(book, inputs).timeline.with_default_events().events
            == timeline.with_default_events().events,
    decreases inputs.len(),
{
    let events = timeline.with_default_events().events;
    if inputs.len() == 0 {
        lemma_initial_sound(book, events);
    } else {
        lemma_session_stays_sound(timeline, book, inputs.drop_last());
        let before = SessionModel::start(timeline).after(book, inputs.drop_last());
        lemma_tick_keeps_sound(before, book, inputs.last());
    }
}

} // verus!
