//! Laws of the engine: what relates its steps to each other, whatever the
//! state they start from.

use vstd::prelude::*;
use vstd::arithmetic::div_mod::{lemma_fundamental_div_mod, lemma_fundamental_div_mod_converse};
use crate::ability::{longer, Ability, AbilityBook, AbilityId};
use crate::bounds::lemma_lower_stays_within;
use crate::events::{DamageEvent, HudShakeEvent};
use crate::resolve::{Decision, Outcome};
use crate::state::{CombatModel, BUFFER_GRACE, GCD_LENGTH, GCD_QUEUE_WINDOW};
use crate::timeline::{longest_shake, EnemyEvent, TimelineModel, ENRAGE_MUDDLED, ENRAGE_SHAKE};
use crate::world::{DotEffect, Health};

verus! {

impl CombatModel {
    /// The state after a sequence of ticks, one for each of `dts`.
    pub open spec fn aged_all(self, dts: Seq<u64>) -> CombatModel
        decreases dts.len(),
    {
        if dts.len() == 0 {
            self
        } else {
            self.aged_all(dts.drop_last()).aged(dts.last())
        }
    }
}

/// A tick raises no timer, and leaves nothing that has run out standing.
/// The weave count, the clipping flag and the queue are not touched.
pub proof fn lemma_aging_lowers(s: CombatModel, dt: u64)
    ensures
        s.aged(dt).no_higher_than(s),
        s.aged(dt).settled(),
        s.aged(dt).weaves_in_current_gcd == s.weaves_in_current_gcd,
        s.aged(dt).clipped == s.clipped,
        s.aged(dt).gcd_queue == s.gcd_queue,
{
    assert(s.aged(dt).ability_cds.dom() =~= s.ability_cds.dom());
}

/// A tick of no time changes nothing, given that nothing that has run out
/// stands in the state.
pub proof fn lemma_aging_zero(s: CombatModel)
    requires
        s.settled(),
    ensures
        s.aged(0) == s,
{
    assert(s.aged(0).ability_cds =~= s.ability_cds);
}

/// Two ticks in a row age the state as one tick of their sum does.
pub proof fn lemma_aging_adds(s: CombatModel, first: u64, second: u64)
    requires
        first + second <= u64::MAX,
    ensures
        s.aged(first).aged(second) == s.aged((first + second) as u64),
{
    assert(s.aged(first).aged(second).ability_cds =~= s.aged(
        (first + second) as u64,
    ).ability_cds);
}

/// Over any sequence of ticks every timer stays within its natural maximum
/// and none rises: the state after the ticks stands no higher than the state
/// before them.
pub proof fn lemma_ticks_stay_within(
    s: CombatModel,
    book: AbilityBook,
    events: Seq<(u64, EnemyEvent)>,
    dts: Seq<u64>,
)
    ensures
        s.aged_all(dts).no_higher_than(s),
        s.within_bounds(book) ==> s.aged_all(dts).within_bounds(book),
        s.within_script(events) ==> s.aged_all(dts).within_script(events),
        s.clip_flagged() ==> s.aged_all(dts).clip_flagged(),
    decreases dts.len(),
{
    if dts.len() > 0 {
        let before = s.aged_all(dts.drop_last());
        lemma_ticks_stay_within(s, book, events, dts.drop_last());
        lemma_aging_lowers(before, dts.last());
        lemma_lower_stays_within(s.aged_all(dts), s, book, events);
    }
}

/// An ability starts only under its conditions: a rhythm ability with the
/// rhythm clock at zero, an off-rhythm ability with the clock running and
/// fewer than two weaves in the window, either with no cast in progress and
/// no animation lock. A fresh request is never dropped: it starts exactly
/// when the ability can, and else takes the queue or the buffer. Only a
/// rhythm ability is queued, and one that cannot start is buffered only
/// while the rhythm clock has more than the queue window left.
pub proof fn lemma_start_conditions(s: CombatModel, ability: Ability)
    ensures
        s.decision(ability) == Decision::ExecuteNow <==> s.can_use_now(ability),
        s.decision(ability) != Decision::Dropped,
        s.decision(ability) == Decision::Queued ==> ability.triggers_gcd,
        s.decision(ability) == Decision::Buffered && ability.triggers_gcd ==> s.gcd_remaining
            > GCD_QUEUE_WINDOW,
        !s.can_use_now(ability) && ability.triggers_gcd && s.gcd_remaining <= GCD_QUEUE_WINDOW
            ==> s.decision(ability) == Decision::Queued,
        s.can_use_now(ability) ==> s.cast is None && s.ani_lock_remaining == 0,
        s.can_use_now(ability) && ability.triggers_gcd ==> s.gcd_remaining == 0,
        s.can_use_now(ability) && !ability.triggers_gcd ==> s.gcd_remaining > 0
            && s.weaves_in_current_gcd < 2,
{
}

/// While a cast is in progress no ability can start.
pub proof fn lemma_cast_blocks_starts(s: CombatModel, ability: Ability)
    requires
        s.cast is Some,
    ensures
        !s.can_use_now(ability),
{
}

/// A rhythm ability and an off-rhythm ability can never start at the same
/// moment: the first needs the rhythm clock at zero, the second needs it
/// running.
pub proof fn lemma_eligibility_exclusive(s: CombatModel, rhythm: Ability, weave: Ability)
    requires
        rhythm.triggers_gcd,
        !weave.triggers_gcd,
    ensures
        !(s.can_use_now(rhythm) && s.can_use_now(weave)),
{
}

/// Resolving an ability puts the weave count to zero exactly when it arms
/// the rhythm clock, which a rhythm ability does and no other. The clipping
/// flag keeps covering a weave count above two.
pub proof fn lemma_weaves_reset_on_rearm(s: CombatModel, ability: Ability)
    ensures
        s.resolve(ability).state.weaves_in_current_gcd == 0 <==> ability.triggers_gcd,
        ability.triggers_gcd ==> s.resolve(ability).state.gcd_remaining == GCD_LENGTH,
        !ability.triggers_gcd ==> s.resolve(ability).state.gcd_remaining == s.gcd_remaining,
        !ability.triggers_gcd && s.weaves_in_current_gcd >= 2 ==> s.resolve(
            ability,
        ).state.clipped,
        s.clip_flagged() ==> s.resolve(ability).state.clip_flagged(),
{
}

/// Of two requests that both end in the buffer only the second is kept.
pub proof fn lemma_buffer_keeps_last(s: CombatModel, first: Ability, second: Ability)
    requires
        s.decision(first) == Decision::Buffered,
        s.decision(second) == Decision::Buffered,
    ensures
        s.request(first).state.decision(second) == Decision::Buffered,
        s.request(first).state.request(second).state.buffer == Some((second.id, BUFFER_GRACE)),
        s.request(first).state.request(second).state == s.request(second).state,
{
    assert(s.request(first).state.request(second).state.ability_cds =~= s.request(
        second,
    ).state.ability_cds);
}

/// Of two requests that both end in the queue only the second is kept.
pub proof fn lemma_queue_keeps_last(s: CombatModel, first: Ability, second: Ability)
    requires
        s.decision(first) == Decision::Queued,
        s.decision(second) == Decision::Queued,
    ensures
        s.request(first).state.decision(second) == Decision::Queued,
        s.request(first).state.request(second).state.gcd_queue == Some(second.id),
        s.request(first).state.request(second).state == s.request(second).state,
{
    assert(s.request(first).state.request(second).state.ability_cds =~= s.request(
        second,
    ).state.ability_cds);
}

/// What is pending starts only under its conditions. The buffered ability
/// starts only when it can start by the rule for fresh requests. The queued
/// ability starts only when it is a rhythm ability, the rhythm clock is at
/// zero, no animation lock holds and no cast is in progress.
pub proof fn lemma_rechecks_respect_conditions(s: CombatModel, book: AbilityBook)
    ensures
        s.recheck_buffer(book) != Outcome::quiet(s) ==> s.buffer is Some && s.can_use_now(
            book.profile(s.buffer.unwrap().0),
        ),
        s.recheck_queue(book) != Outcome::quiet(s) ==> {
            &&& s.gcd_queue is Some
            &&& book.profile(s.gcd_queue.unwrap()).triggers_gcd
            &&& s.gcd_remaining == 0
            &&& s.ani_lock_remaining == 0
            &&& s.cast is None
        },
        s.complete_cast(book) != Outcome::quiet(s) ==> s.cast is Some && s.cast.unwrap().remaining
            == 0,
{
}

/// In one tick the look at the buffer and the look at the queue never both
/// start an ability: once the buffered ability has started, the queued one
/// stays where it is.
pub proof fn lemma_rechecks_start_once(s: CombatModel, book: AbilityBook)
    requires
        s.recheck_buffer(book) != Outcome::quiet(s),
    ensures
        s.recheck_buffer(book).state.recheck_queue(book) == Outcome::quiet(
            s.recheck_buffer(book).state,
        ),
{
}

/// A queued rhythm ability starts in the first tick that finds the rhythm
/// clock and the animation lock run out, with no cast in progress and
/// nothing else asked for or buffered: the tick ages the timers, takes the
/// ability out of the queue and starts it.
pub proof fn lemma_queue_fires_when_clear(
    s: CombatModel,
    book: AbilityBook,
    id: AbilityId,
    dt: u64,
)
    requires
        s.gcd_queue == Some(id),
        book.profile(id).triggers_gcd,
        s.cast is None,
        s.buffer is None,
        s.gcd_remaining <= dt,
        s.ani_lock_remaining <= dt,
    ensures
        s.step(dt, book, Seq::empty()) == (CombatModel { gcd_queue: None, ..s.aged(dt) }).start(
            book.profile(id),
        ),
        s.step(dt, book, Seq::empty()).state.gcd_queue is None,
{
    let aged = s.aged(dt);
    let fired = CombatModel { gcd_queue: None, ..aged }.start(book.profile(id));
    assert(aged.complete_cast(book) == Outcome::quiet(aged));
    assert(aged.requests(book, Seq::empty()) == Outcome::quiet(aged));
    assert(aged.recheck_buffer(book) == Outcome::quiet(aged));
    assert(aged.recheck_queue(book) == fired);
    assert(s.step(dt, book, Seq::empty()).damage =~= fired.damage);
    assert(s.step(dt, book, Seq::empty()).dots =~= fired.dots);
}

/// With the instant-cast buff at hand an ability with a cast time resolves
/// in the tick in which it starts: no cast begins, and the buff is used up
/// before the ability's effects apply.
pub proof fn lemma_swift_start_resolves(s: CombatModel, ability: Ability)
    requires
        ability.cast_time > 0,
        s.swift(),
    ensures
        s.start(ability) == (CombatModel { swiftcast_remaining: None, ..s }).resolve(ability),
        s.start(ability).state.cast == s.cast,
        ability.triggers_gcd || ability.id != AbilityId::Swiftcast ==> s.start(
            ability,
        ).state.swiftcast_remaining is None,
{
}

/// The cursor of the script moves past an entry only when the entry's
/// trigger time has come. A run ends with clock and cursor at zero, after an
/// enrage, or with the clock as it was and the cursor on an entry that is
/// not due yet or past the last one.
pub proof fn lemma_play_cursor(script: TimelineModel, s: CombatModel)
    ensures
        script.play(s).timeline.t == 0 && script.play(s).timeline.idx == 0 || {
            &&& script.play(s).timeline.t == script.t
            &&& script.play(s).timeline.idx >= script.idx
            &&& !script.play(s).timeline.due()
        },
        forall|k: int|
            script.idx <= k < script.play(s).timeline.idx ==> (#[trigger] script.events[k]).0
                <= script.t,
        script.idx <= script.events.len() ==> script.play(s).timeline.idx <= script.events.len(),
    decreases script.events.len() - script.idx,
{
    if script.due() {
        let next = TimelineModel { idx: script.idx + 1, ..script };
        match script.events[script.idx as int].1 {
            EnemyEvent::Muddled { duration } => {
                lemma_play_cursor(next, CombatModel { muddled: Some(duration), ..s });
            },
            EnemyEvent::HudShake { duration } => {
                lemma_play_cursor(next, s);
            },
            EnemyEvent::Enrage => {},
        }
    }
}

/// Moving the script on by `dt` leaves its clock at zero with the cursor at
/// zero, after an enrage, or at the clock it had plus `dt`, where a script
/// without entries counts from zero, with the default schedule. The schedule
/// is never empty afterwards.
pub proof fn lemma_advance_clock(script: TimelineModel, dt: u64, s: CombatModel)
    requires
        script.with_default_events().t + dt <= u64::MAX,
    ensures
        script.advance(dt, s).timeline.events == script.with_default_events().events,
        script.advance(dt, s).timeline.events.len() > 0,
        script.advance(dt, s).timeline.t == 0 && script.advance(dt, s).timeline.idx == 0 || {
            &&& script.advance(dt, s).timeline.t == script.with_default_events().t + dt
            &&& script.advance(dt, s).timeline.idx >= script.with_default_events().idx
            &&& !script.advance(dt, s).timeline.due()
        },
{
    let armed = script.with_default_events();
    let wound = TimelineModel { t: (armed.t + dt) as u64, ..armed };
    lemma_play_cursor(wound, s);
    lemma_play_events(wound, s);
}

/// A run of the script leaves its schedule as it is.
pub proof fn lemma_play_events(script: TimelineModel, s: CombatModel)
    ensures
        script.play(s).timeline.events == script.events,
    decreases script.events.len() - script.idx,
{
    if script.due() {
        let next = TimelineModel { idx: script.idx + 1, ..script };
        match script.events[script.idx as int].1 {
            EnemyEvent::Muddled { duration } => {
                lemma_play_events(next, CombatModel { muddled: Some(duration), ..s });
            },
            EnemyEvent::HudShake { duration } => {
                lemma_play_events(next, s);
            },
            EnemyEvent::Enrage => {},
        }
    }
}

/// An enrage puts the script back to where it started: clock and cursor at
/// zero over the same schedule, so that every entry needs the same time
/// again. It raises the alert time to at least `ENRAGE_SHAKE`, sets the
/// debuff to `ENRAGE_MUDDLED`, and asks for no alert.
pub proof fn lemma_enrage_restarts(script: TimelineModel, s: CombatModel)
    requires
        script.due(),
        script.events[script.idx as int].1 == EnemyEvent::Enrage,
    ensures
        script.play(s).timeline == (TimelineModel { t: 0, idx: 0, events: script.events }),
        script.play(s).state == (CombatModel {
            hud_shake_remaining: longer(s.hud_shake_remaining, ENRAGE_SHAKE),
            muddled: Some(ENRAGE_MUDDLED),
            ..s
        }),
        script.play(s).shakes == Seq::<HudShakeEvent>::empty(),
{
}

/// The longest of some alerts is one of them, or zero if there is none, and
/// none of them is longer.
pub proof fn lemma_longest_shake(shakes: Seq<HudShakeEvent>)
    ensures
        forall|i: int| 0 <= i < shakes.len() ==> (#[trigger] shakes[i]).0 <= longest_shake(shakes),
        shakes.len() == 0 ==> longest_shake(shakes) == 0,
        shakes.len() > 0 ==> exists|i: int|
            0 <= i < shakes.len() && (#[trigger] shakes[i]).0 == longest_shake(shakes),
    decreases shakes.len(),
{
    if shakes.len() > 0 {
        let front = shakes.drop_last();
        lemma_longest_shake(front);
        assert forall|i: int| 0 <= i < shakes.len() implies (#[trigger] shakes[i]).0
            <= longest_shake(shakes) by {
            if i < front.len() {
                assert(shakes[i] == front[i]);
            }
        }
        if front.len() > 0 && longest_shake(shakes) != shakes.last().0 {
            let i = choose|i: int|
                0 <= i < front.len() && (#[trigger] front[i]).0 == longest_shake(front);
            assert(shakes[i] == front[i]);
        } else {
            assert(shakes[shakes.len() - 1].0 == longest_shake(shakes));
        }
    }
}

/// Hits that are not negative can always be taken.
pub proof fn lemma_hits_fit(hp: Health, hits: Seq<DamageEvent>)
    requires
        forall|i: int| 0 <= i < hits.len() ==> (#[trigger] hits[i]).amount >= 0,
    ensures
        hp.can_take_all(hits),
{
}

/// An effect that outlasts a first stretch of time ticks over that stretch
/// and a second one as often as over the two in one, and ends up the same.
pub proof fn lemma_dot_ticks_add(d: DotEffect, first: u64, second: u64)
    requires
        d.tick_every > 0,
        first + second <= u64::MAX,
        d.remaining > first,
    ensures
        d.aged(first) is Some,
        d.ticks_due(first) + d.aged(first).unwrap().ticks_due(second) == d.ticks_due(
            (first + second) as u64,
        ),
        d.aged(first).unwrap().aged(second) == d.aged((first + second) as u64),
{
    let every = d.tick_every as int;
    let q1 = (d.tick_accum + first) / every;
    let r1 = (d.tick_accum + first) % every;
    let q2 = (r1 + second) / every;
    let r2 = (r1 + second) % every;
    lemma_fundamental_div_mod(d.tick_accum + first, every);
    lemma_fundamental_div_mod(r1 + second, every);
    assert((q1 + q2) * every == every * q1 + every * q2) by (nonlinear_arith);
    lemma_fundamental_div_mod_converse(d.tick_accum + first + second, every, q1 + q2, r2);
}

} // verus!
