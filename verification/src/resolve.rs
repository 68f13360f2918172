//! Resolving requests: whether an ability starts now, waits for the next
//! rhythm slot or is kept for a moment, and what a started ability does.

use vstd::prelude::*;
use crate::ability::{Ability, AbilityBook, AbilityId};
use crate::events::{ApplyDotEvent, DamageEvent};
use crate::state::{CastState, CombatModel, CombatState, BUFFER_GRACE, GCD_LENGTH, GCD_QUEUE_WINDOW};

verus! {

/// How long the instant-cast buff can be used, in milliseconds.
pub const SWIFTCAST_WINDOW: u64 = 10000;

/// How long the damage buff lasts, in milliseconds.
pub const RAGING_WINDOW: u64 = 15000;

/// Damage of one tick of the burn effect.
pub const BURN_DPS: i32 = 20;

/// How long the burn effect lasts, in milliseconds.
pub const BURN_DURATION: u64 = 12000;

/// Time between two ticks of the burn effect, in milliseconds.
pub const BURN_TICK_EVERY: u64 = 1000;

/// What became of a request.
#[derive(Debug, Clone, Copy, PartialEq, Eq, Structural)]
pub enum Decision {
    /// The ability started: it resolved at once or its cast began.
    ExecuteNow,
    /// The ability waits in the queue for the next rhythm slot.
    Queued,
    /// The ability is kept in the buffer for a short grace time.
    Buffered,
    /// The request is gone. A fresh request never ends here: it is the fate
    /// of what a newer request overwrites and of a buffered request whose
    /// grace time runs out.
    Dropped,
}

/// What a step leaves behind: the new state, and the events it emitted in
/// the order of emission.
#[verifier::ext_equal]
pub struct Outcome {
    pub state: CombatModel,
    pub damage: Seq<DamageEvent>,
    pub dots: Seq<ApplyDotEvent>,
}

impl Outcome {
    /// The outcome of a step that changes nothing and emits nothing.
    pub open spec fn quiet(state: CombatModel) -> Outcome {
        Outcome { state, damage: Seq::empty(), dots: Seq::empty() }
    }

    /// This outcome followed by `next`, which started from `self.state`.
    pub open spec fn followed_by(self, next: Outcome) -> Outcome {
        Outcome {
            state: next.state,
            damage: self.damage + next.damage,
            dots: self.dots + next.dots,
        }
    }
}

/// Base damage of a rhythm ability; zero for one that deals none.
pub open spec fn base_damage(id: AbilityId) -> i32 {
    match id {
        AbilityId::Strike => 100,
        AbilityId::Fireball => 180,
        _ => 0,
    }
}

/// Damage of a rhythm ability under the damage buff: a fifth more.
pub open spec fn boosted(base: i32) -> i32 {
    (base * 6 / 5) as i32
}

/// The fixed damage of an off-rhythm attack; zero for the other abilities.
pub open spec fn weave_damage(id: AbilityId) -> i32 {
    match id {
        AbilityId::WeaveDash => 60,
        AbilityId::WeaveSong => 50,
        AbilityId::Jump => 120,
        _ => 0,
    }
}

/// The damage events of a hit of `amount`: one event, or none for no damage.
pub open spec fn hit(amount: i32) -> Seq<DamageEvent> {
    if amount > 0 {
        seq![DamageEvent { amount }]
    } else {
        Seq::empty()
    }
}

/// The effect that the burn ability installs.
pub open spec fn burn_dot() -> ApplyDotEvent {
    ApplyDotEvent { dps: BURN_DPS, duration: BURN_DURATION, tick_every: BURN_TICK_EVERY }
}

impl CombatModel {
    /// Whether the damage buff is running.
    pub open spec fn raging(self) -> bool {
        self.raging_remaining matches Some(left) && left > 0
    }

    /// Whether the instant-cast buff is there to be used.
    pub open spec fn swift(self) -> bool {
        self.swiftcast_remaining matches Some(left) && left > 0
    }

    /// The effects of `ability`, applied now.
    ///
    /// The ability's cooldown starts in either case, and so does its
    /// animation lock. A rhythm ability arms the rhythm clock, opens a new
    /// weave window and deals its base damage, a fifth more under the damage
    /// buff; the burn ability also installs its effect. An off-rhythm
    /// ability counts as a weave, sets the clipping flag from the third
    /// weave of a window on, and has its own effect.
    pub open spec fn resolve(self, ability: Ability) -> Outcome {
        let cds = self.ability_cds.insert(ability.id, ability.cooldown);
        if ability.triggers_gcd {
            Outcome {
                state: CombatModel {
                    ability_cds: cds,
                    gcd_remaining: GCD_LENGTH,
                    weaves_in_current_gcd: 0,
                    clipped: false,
                    ani_lock_remaining: ability.ani_lock,
                    ..self
                },
                damage: hit(
                    if self.raging() {
                        boosted(base_damage(ability.id))
                    } else {
                        base_damage(ability.id)
                    },
                ),
                dots: if ability.id == AbilityId::Burn {
                    seq![burn_dot()]
                } else {
                    Seq::empty()
                },
            }
        } else {
            let weaves: u8 = if self.weaves_in_current_gcd < 255 {
                (self.weaves_in_current_gcd + 1) as u8
            } else {
                255
            };
            Outcome {
                state: CombatModel {
                    ability_cds: cds,
                    weaves_in_current_gcd: weaves,
                    clipped: self.clipped || weaves > 2,
                    ani_lock_remaining: ability.ani_lock,
                    muddled: if ability.id == AbilityId::Cleanse {
                        None
                    } else {
                        self.muddled
                    },
                    swiftcast_remaining: if ability.id == AbilityId::Swiftcast {
                        Some(SWIFTCAST_WINDOW)
                    } else {
                        self.swiftcast_remaining
                    },
                    raging_remaining: if ability.id == AbilityId::Raging {
                        Some(RAGING_WINDOW)
                    } else {
                        self.raging_remaining
                    },
                    ..self
                },
                damage: hit(weave_damage(ability.id)),
                dots: Seq::empty(),
            }
        }
    }

    /// `ability` starts. With a cast time and the instant-cast buff at hand
    /// the buff is used up and the ability resolves at once; with a cast time
    /// and no buff its cast begins; without a cast time it resolves at once.
    pub open spec fn start(self, ability: Ability) -> Outcome {
        if ability.cast_time > 0 && self.swift() {
            CombatModel { swiftcast_remaining: None, ..self }.resolve(ability)
        } else if ability.cast_time > 0 {
            Outcome::quiet(
                CombatModel {
                    cast: Some(
                        CastState {
                            ability: ability.id,
                            remaining: ability.cast_time,
                            total: ability.cast_time,
                        },
                    ),
                    ..self
                },
            )
        } else {
            self.resolve(ability)
        }
    }

    /// Whether a rhythm request that cannot start is close enough to the next
    /// slot to be queued: a cast has at most the queue window left, or the
    /// rhythm clock has at most the queue window left. A rhythm clock at
    /// zero is within the window: a rhythm request that only an animation
    /// lock, a cast or the ability's own cooldown holds back is queued.
    pub open spec fn in_queue_window(self) -> bool {
        ||| self.cast matches Some(c) && c.remaining <= GCD_QUEUE_WINDOW
        ||| self.gcd_remaining <= GCD_QUEUE_WINDOW
    }

    /// What becomes of a request for `ability`.
    pub open spec fn decision(self, ability: Ability) -> Decision {
        if self.can_use_now(ability) {
            Decision::ExecuteNow
        } else if ability.triggers_gcd && self.in_queue_window() {
            Decision::Queued
        } else {
            Decision::Buffered
        }
    }

    /// A request for `ability` is resolved: the ability starts, or it takes
    /// the queue slot, or it takes the buffer slot with the full grace time.
    /// Whatever the slot held before is overwritten.
    pub open spec fn request(self, ability: Ability) -> Outcome {
        match self.decision(ability) {
            Decision::ExecuteNow => self.start(ability),
            Decision::Queued => Outcome::quiet(
                CombatModel { gcd_queue: Some(ability.id), ..self },
            ),
            _ => Outcome::quiet(
                CombatModel { buffer: Some((ability.id, BUFFER_GRACE)), ..self },
            ),
        }
    }

    /// The requests `ids` are resolved one after the other, each ability
    /// with its profile from `book`.
    pub open spec fn requests(self, book: AbilityBook, ids: Seq<AbilityId>) -> Outcome
        decreases ids.len(),
    {
        if ids.len() == 0 {
            Outcome::quiet(self)
        } else {
            let before = self.requests(book, ids.drop_last());
            before.followed_by(before.state.request(book.profile(ids.last())))
        }
    }

    /// A cast that has run to its end resolves and leaves the cast slot.
    pub open spec fn complete_cast(self, book: AbilityBook) -> Outcome {
        match self.cast {
            Some(c) if c.remaining == 0 => {
                let done = self.resolve(book.profile(c.ability));
                Outcome { state: CombatModel { cast: None, ..done.state }, ..done }
            },
            _ => Outcome::quiet(self),
        }
    }

    /// The buffered ability starts, and leaves the buffer, if no cast is in
    /// progress and it may start now.
    pub open spec fn recheck_buffer(self, book: AbilityBook) -> Outcome {
        match self.buffer {
            Some((id, _)) if self.cast is None && self.can_use_now(book.profile(id)) => {
                CombatModel { buffer: None, ..self }.start(book.profile(id))
            },
            _ => Outcome::quiet(self),
        }
    }

    /// The queued rhythm ability starts, and leaves the queue, if no cast is
    /// in progress, the rhythm clock is at zero and no animation lock holds.
    pub open spec fn recheck_queue(self, book: AbilityBook) -> Outcome {
        match self.gcd_queue {
            Some(id) if self.cast is None && book.profile(id).triggers_gcd
                && self.gcd_remaining == 0 && self.ani_lock_remaining == 0 => {
                CombatModel { gcd_queue: None, ..self }.start(book.profile(id))
            },
            _ => Outcome::quiet(self),
        }
    }
}

/// Applies the effects of `ability`: cooldown, rhythm clock or weave count,
/// animation lock, and the ability's own effect. Damage goes to `dmg_writer`,
/// a damage-over-time effect to `dot_writer`.
pub fn resolve_ability(
    ability: &Ability,
    combat: &mut CombatState,
    dmg_writer: &mut Vec<DamageEvent>,
    dot_writer: &mut Vec<ApplyDotEvent>,
)
    ensures
        final(combat)@ == old(combat)@.resolve(*ability).state,
        final(dmg_writer)@ == old(dmg_writer)@ + old(combat)@.resolve(*ability).damage,
        final(dot_writer)@ == old(dot_writer)@ + old(combat)@.resolve(*ability).dots,
{
    combat.ability_cds[ability.id.index()] = ability.cooldown;
    if ability.triggers_gcd {
        combat.gcd_remaining = GCD_LENGTH;
        combat.weaves_in_current_gcd = 0;
        combat.clipped = false;
        combat.ani_lock_remaining = ability.ani_lock;
        let raging = match combat.raging_remaining {
            Some(left) => left > 0,
            None => false,
        };
        let base: i32 = match ability.id {
            AbilityId::Strike => 100,
            AbilityId::Fireball => 180,
            _ => 0,
        };
        if base > 0 {
            let amount: i32 = if raging {
                base * 6 / 5
            } else {
                base
            };
            dmg_writer.push(DamageEvent { amount });
        }
        if ability.id == AbilityId::Burn {
            dot_writer.push(
                ApplyDotEvent {
                    dps: BURN_DPS,
                    duration: BURN_DURATION,
                    tick_every: BURN_TICK_EVERY,
                },
            );
        }
    } else {
        combat.weaves_in_current_gcd = combat.weaves_in_current_gcd.saturating_add(1);
        if combat.weaves_in_current_gcd > 2 {
            combat.clipped = true;
        }
        combat.ani_lock_remaining = ability.ani_lock;
        match ability.id {
            AbilityId::Cleanse => {
                combat.muddled = None;
            },
            AbilityId::Swiftcast => {
                combat.swiftcast_remaining = Some(SWIFTCAST_WINDOW);
            },
            AbilityId::Raging => {
                combat.raging_remaining = Some(RAGING_WINDOW);
            },
            AbilityId::WeaveDash => {
                dmg_writer.push(DamageEvent { amount: 60 });
            },
            AbilityId::WeaveSong => {
                dmg_writer.push(DamageEvent { amount: 50 });
            },
            AbilityId::Jump => {
                dmg_writer.push(DamageEvent { amount: 120 });
            },
            _ => {},
        }
    }
}

/// Starts `ability`: begins its cast, or resolves it at once when it has no
/// cast time or the instant-cast buff pays for it.
pub fn start_cast_or_instant(
    ability: &Ability,
    combat: &mut CombatState,
    dmg_writer: &mut Vec<DamageEvent>,
    dot_writer: &mut Vec<ApplyDotEvent>,
)
    ensures
        final(combat)@ == old(combat)@.start(*ability).state,
        final(dmg_writer)@ == old(dmg_writer)@ + old(combat)@.start(*ability).damage,
        final(dot_writer)@ == old(dot_writer)@ + old(combat)@.start(*ability).dots,
{
    let mut cast_time = ability.cast_time;
    if cast_time > 0 {
        if let Some(left) = combat.swiftcast_remaining {
            if left > 0 {
                cast_time = 0;
                combat.swiftcast_remaining = None;
            }
        }
    }
    if cast_time > 0 {
        combat.cast = Some(
            CastState { ability: ability.id, remaining: cast_time, total: cast_time },
        );
    } else {
        resolve_ability(ability, combat, dmg_writer, dot_writer);
    }
}

/// Resolves a request for `ability` and says what became of it.
pub fn try_use_or_buffer(
    ability: &Ability,
    combat: &mut CombatState,
    dmg_writer: &mut Vec<DamageEvent>,
    dot_writer: &mut Vec<ApplyDotEvent>,
) -> (decision: Decision)
    ensures
        decision == old(combat)@.decision(*ability),
        final(combat)@ == old(combat)@.request(*ability).state,
        final(dmg_writer)@ == old(dmg_writer)@ + old(combat)@.request(*ability).damage,
        final(dot_writer)@ == old(dot_writer)@ + old(combat)@.request(*ability).dots,
{
    if combat.can_use_now(ability) {
        start_cast_or_instant(ability, combat, dmg_writer, dot_writer);
        return Decision::ExecuteNow;
    }
    if ability.triggers_gcd {
        if let Some(cast) = combat.cast {
            if cast.remaining <= GCD_QUEUE_WINDOW {
                combat.gcd_queue = Some(ability.id);
                return Decision::Queued;
            }
        }
        if combat.gcd_remaining <= GCD_QUEUE_WINDOW {
            combat.gcd_queue = Some(ability.id);
            return Decision::Queued;
        }
    }
    combat.buffer = Some((ability.id, BUFFER_GRACE));
    Decision::Buffered
}

/// Resolves the cast in progress if it has run to its end, and frees the
/// cast slot. Runs after the timers have aged and before new requests.
pub fn process_cast_completion(
    book: &AbilityBook,
    combat: &mut CombatState,
    dmg_writer: &mut Vec<DamageEvent>,
    dot_writer: &mut Vec<ApplyDotEvent>,
)
    ensures
        final(combat)@ == old(combat)@.complete_cast(*book).state,
        final(dmg_writer)@ == old(dmg_writer)@ + old(combat)@.complete_cast(*book).damage,
        final(dot_writer)@ == old(dot_writer)@ + old(combat)@.complete_cast(*book).dots,
{
    if let Some(cast) = combat.cast {
        if cast.remaining == 0 {
            let ability = book.get(cast.ability);
            resolve_ability(ability, combat, dmg_writer, dot_writer);
            combat.cast = None;
        }
    }
}

/// Resolves the requests of one tick in the order given.
pub fn handle_ability_input(
    requests: &Vec<AbilityId>,
    book: &AbilityBook,
    combat: &mut CombatState,
    dmg_writer: &mut Vec<DamageEvent>,
    dot_writer: &mut Vec<ApplyDotEvent>,
)
    ensures
        final(combat)@ == old(combat)@.requests(*book, requests@).state,
        final(dmg_writer)@ == old(dmg_writer)@ + old(combat)@.requests(*book, requests@).damage,
        final(dot_writer)@ == old(dot_writer)@ + old(combat)@.requests(*book, requests@).dots,
{
    let mut i: usize = 0;
    while i < requests.len()
        invariant
            i <= requests.len(),
            combat@ == old(combat)@.requests(*book, requests@.take(i as int)).state,
            dmg_writer@ == old(dmg_writer)@ + old(combat)@.requests(
                *book,
                requests@.take(i as int),
            ).damage,
            dot_writer@ == old(dot_writer)@ + old(combat)@.requests(
                *book,
                requests@.take(i as int),
            ).dots,
        decreases requests.len() - i,
    {
        let ability = book.get(requests[i]);
        try_use_or_buffer(ability, combat, dmg_writer, dot_writer);
        proof {
            assert(requests@.take(i + 1).drop_last() == requests@.take(i as int));
        }
        i += 1;
    }
    proof {
        assert(requests@.take(i as int) == requests@);
    }
}

/// Starts the buffered ability if it has become usable and no cast is in
/// progress.
pub fn process_buffered_ability(
    book: &AbilityBook,
    combat: &mut CombatState,
    dmg_writer: &mut Vec<DamageEvent>,
    dot_writer: &mut Vec<ApplyDotEvent>,
)
    ensures
        final(combat)@ == old(combat)@.recheck_buffer(*book).state,
        final(dmg_writer)@ == old(dmg_writer)@ + old(combat)@.recheck_buffer(*book).damage,
        final(dot_writer)@ == old(dot_writer)@ + old(combat)@.recheck_buffer(*book).dots,
{
    if combat.cast.is_some() {
        return ;
    }
    if let Some((id, _)) = combat.buffer {
        let ability = book.get(id);
        if combat.can_use_now(ability) {
            combat.buffer = None;
            start_cast_or_instant(ability, combat, dmg_writer, dot_writer);
        }
    }
}

/// Starts the queued rhythm ability once the rhythm clock has cleared, no
/// animation lock holds and no cast is in progress.
pub fn process_gcd_queue(
    book: &AbilityBook,
    combat: &mut CombatState,
    dmg_writer: &mut Vec<DamageEvent>,
    dot_writer: &mut Vec<ApplyDotEvent>,
)
    ensures
        final(combat)@ == old(combat)@.recheck_queue(*book).state,
        final(dmg_writer)@ == old(dmg_writer)@ + old(combat)@.recheck_queue(*book).damage,
        final(dot_writer)@ == old(dot_writer)@ + old(combat)@.recheck_queue(*book).dots,
{
    if combat.cast.is_some() {
        return ;
    }
    if let Some(id) = combat.gcd_queue {
        let ability = book.get(id);
        if ability.triggers_gcd && combat.gcd_remaining == 0 && combat.ani_lock_remaining == 0 {
            combat.gcd_queue = None;
            start_cast_or_instant(ability, combat, dmg_writer, dot_writer);
        }
    }
}

} // verus!
