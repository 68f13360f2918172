//! The target of the player's abilities: its health and the one
//! damage-over-time effect it can carry.

use vstd::prelude::*;
use vstd::arithmetic::div_mod::lemma_fundamental_div_mod_converse;
use crate::events::{ApplyDotEvent, DamageEvent};

verus! {

/// Health of the target.
#[derive(Debug, Clone, Copy, PartialEq, Eq, Structural)]
pub struct Health {
    pub current: i32,
    pub max: i32,
}

/// The damage-over-time effect on the target. Durations are in milliseconds.
#[derive(Debug, Clone, Copy, PartialEq, Eq, Structural)]
pub struct DotEffect {
    /// Time until the effect ends.
    pub remaining: u64,
    /// Time between two ticks.
    pub tick_every: u64,
    /// Time gathered towards the next tick.
    pub tick_accum: u64,
    /// Damage of one tick.
    pub dps: i32,
}

impl Health {
    /// Whether the health left after a hit of `amount` fits the health's type.
    /// Every hit that is not negative does.
    pub open spec fn can_take(self, amount: i32) -> bool {
        self.current - amount <= i32::MAX
    }

    /// The health after a hit of `amount`: lowered by it, but not below zero.
    pub open spec fn after_hit(self, amount: i32) -> Health {
        Health {
            current: if self.current - amount > 0 {
                (self.current - amount) as i32
            } else {
                0
            },
            ..self
        }
    }

    /// The health after the hits `hits`, taken in order.
    pub open spec fn after_hits(self, hits: Seq<DamageEvent>) -> Health
        decreases hits.len(),
    {
        if hits.len() == 0 {
            self
        } else {
            self.after_hits(hits.drop_last()).after_hit(hits.last().amount)
        }
    }

    /// Whether each of the hits `hits`, taken in order, leaves a health that
    /// fits the health's type.
    pub open spec fn can_take_all(self, hits: Seq<DamageEvent>) -> bool {
        forall|k: int|
            0 <= k < hits.len() ==> (#[trigger] self.after_hits(hits.take(k))).can_take(
                hits[k].amount,
            )
    }

    /// Takes a hit of `amount`.
    pub fn take_damage(&mut self, amount: i32)
        requires
            old(self).can_take(amount),
        ensures
            *final(self) == old(self).after_hit(amount),
    {
        if self.current > amount {
            self.current = self.current - amount;
        } else {
            self.current = 0;
        }
    }
}

impl DotEffect {
    /// The effect that `event` installs: its full duration ahead, nothing
    /// gathered towards the first tick.
    pub open spec fn installed(event: ApplyDotEvent) -> DotEffect {
        DotEffect {
            remaining: event.duration,
            tick_every: event.tick_every,
            tick_accum: 0,
            dps: event.dps,
        }
    }

    /// How many ticks fall due when `dt` more milliseconds have passed.
    pub open spec fn ticks_due(self, dt: u64) -> nat {
        ((self.tick_accum + dt) / (self.tick_every as int)) as nat
    }

    /// The effect after `dt` more milliseconds, or `None` if it has ended.
    pub open spec fn aged(self, dt: u64) -> Option<DotEffect> {
        if self.remaining <= dt {
            None
        } else {
            Some(
                DotEffect {
                    remaining: (self.remaining - dt) as u64,
                    tick_accum: ((self.tick_accum + dt) % (self.tick_every as int)) as u64,
                    ..self
                },
            )
        }
    }

    /// The damage events of `n` ticks of this effect.
    pub open spec fn ticks(self, n: nat) -> Seq<DamageEvent> {
        Seq::new(n, |i: int| DamageEvent { amount: self.dps })
    }
}

/// Subtracts the damage of each event from the target's health, which stops
/// at zero.
pub fn handle_damage_events(events: &Vec<DamageEvent>, hp: &mut Health)
    requires
        old(hp).can_take_all(events@),
    ensures
        *final(hp) == old(hp).after_hits(events@),
{
    let mut i: usize = 0;
    while i < events.len()
        invariant
            i <= events.len(),
            *hp == old(hp).after_hits(events@.take(i as int)),
            old(hp).can_take_all(events@),
        decreases events.len() - i,
    {
        hp.take_damage(events[i].amount);
        proof {
            assert(events@.take(i + 1).drop_last() == events@.take(i as int));
        }
        i += 1;
    }
    proof {
        assert(events@.take(i as int) == events@);
    }
}

/// Installs the effect of the last of `events` on the target, in place of
/// the effect that was there. Without events the target keeps what it has.
pub fn handle_apply_dot_events(events: &Vec<ApplyDotEvent>, dot: &mut Option<DotEffect>)
    ensures
        events@.len() == 0 ==> *final(dot) == *old(dot),
        events@.len() > 0 ==> *final(dot) == Some(DotEffect::installed(events@.last())),
{
    let mut i: usize = 0;
    while i < events.len()
        invariant
            i <= events.len(),
            i == 0 ==> *dot == *old(dot),
            i > 0 ==> *dot == Some(DotEffect::installed(events@[i - 1])),
        decreases events.len() - i,
    {
        let event = events[i];
        *dot = Some(
            DotEffect {
                remaining: event.duration,
                tick_every: event.tick_every,
                tick_accum: 0,
                dps: event.dps,
            },
        );
        i += 1;
    }
}

/// Ages the target's effect by `dt` milliseconds. Every time the gathered
/// time reaches the tick interval one damage event goes to `writer`; the
/// effect is taken off the target once its time is up. An effect must have a
/// tick interval above zero.
pub fn tick_dots(dt: u64, dot: &mut Option<DotEffect>, writer: &mut Vec<DamageEvent>)
    requires
        *old(dot) matches Some(d) ==> d.tick_every > 0,
    ensures
        *old(dot) is None ==> *final(dot) == *old(dot) && final(writer)@ == old(writer)@,
        *old(dot) matches Some(d) ==> *final(dot) == d.aged(dt) && final(writer)@ == old(writer)@
            + d.ticks(d.ticks_due(dt)),
{
    if let Some(d) = *dot {
        // `accum` is what has gathered, `left` what of `dt` is still to come.
        let mut accum = d.tick_accum;
        let mut left = dt;
        let ghost mut emitted: nat = 0;
        while accum >= d.tick_every || left >= d.tick_every - accum
            invariant
                d.tick_every > 0,
                accum + left + emitted * d.tick_every == d.tick_accum + dt,
                writer@ == old(writer)@ + d.ticks(emitted),
            decreases accum + left,
        {
            if accum >= d.tick_every {
                accum = accum - d.tick_every;
            } else {
                left = left - (d.tick_every - accum);
                accum = 0;
            }
            writer.push(DamageEvent { amount: d.dps });
            proof {
                assert((emitted + 1) * d.tick_every == emitted * d.tick_every + d.tick_every)
                    by (nonlinear_arith);
                emitted = emitted + 1;
            }
        }
        accum = accum + left;
        proof {
            lemma_fundamental_div_mod_converse(
                d.tick_accum + dt,
                d.tick_every as int,
                emitted as int,
                accum as int,
            );
        }
        if d.remaining <= dt {
            *dot = None;
        } else {
            *dot = Some(
                DotEffect {
                    remaining: d.remaining - dt,
                    tick_every: d.tick_every,
                    tick_accum: accum,
                    dps: d.dps,
                },
            );
        }
    }
}

} // verus!
