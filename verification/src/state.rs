//! The timer state of one combat session and its mathematical view.

use vstd::prelude::*;
use crate::ability::{Ability, AbilityId, ABILITY_COUNT};
use crate::laws::lemma_aging_lowers;

verus! {

/// Length of the shared rhythm (the global cooldown), in milliseconds.
pub const GCD_LENGTH: u64 = 2500;

/// A rhythm request that cannot start is queued for the next slot when the
/// rhythm clock or a cast has at most this much left. Milliseconds.
pub const GCD_QUEUE_WINDOW: u64 = 600;

/// How long a buffered request is kept, in milliseconds.
pub const BUFFER_GRACE: u64 = 400;

/// `a - b`, but never below zero.
pub open spec fn sub_floor(a: u64, b: u64) -> u64 {
    if a > b {
        (a - b) as u64
    } else {
        0
    }
}

/// A timer that is unset once it has run out.
pub open spec fn age_timer(t: Option<u64>, dt: u64) -> Option<u64> {
    match t {
        Some(left) => if left > dt {
            Some((left - dt) as u64)
        } else {
            None
        },
        None => None,
    }
}

/// A cast in progress.
#[derive(Debug, Clone, Copy, PartialEq, Eq, Structural)]
pub struct CastState {
    pub ability: AbilityId,
    /// Milliseconds until the cast completes.
    pub remaining: u64,
    /// Full length of the cast in milliseconds.
    pub total: u64,
}

/// All timers of a combat session. Durations are in milliseconds.
#[derive(Debug, Clone, Copy, PartialEq, Eq)]
pub struct CombatState {
    /// The shared rhythm clock. While it runs no rhythm ability can start.
    pub gcd_remaining: u64,
    /// Off-rhythm abilities resolved since the rhythm clock was last armed.
    pub weaves_in_current_gcd: u8,
    pub cast: Option<CastState>,
    /// A request kept for a short grace time, with the time it has left.
    pub buffer: Option<(AbilityId, u64)>,
    /// The rhythm ability to fire when the rhythm clock clears.
    pub gcd_queue: Option<AbilityId>,
    /// Cooldown left for each ability, at the ability's index.
    pub ability_cds: [u64; ABILITY_COUNT],
    /// Set when more than two off-rhythm abilities resolved in one window.
    pub clipped: bool,
    /// Time left of the impairing debuff.
    pub muddled: Option<u64>,
    pub hud_shake_remaining: u64,
    /// While it runs no ability can start.
    pub ani_lock_remaining: u64,
    /// Time left to use the instant-cast buff.
    pub swiftcast_remaining: Option<u64>,
    /// Time left of the damage buff.
    pub raging_remaining: Option<u64>,
}

/// The timer state as a mathematical value: the cooldown table is a total map.
#[verifier::ext_equal]
pub struct CombatModel {
    pub gcd_remaining: u64,
    pub weaves_in_current_gcd: u8,
    pub cast: Option<CastState>,
    pub buffer: Option<(AbilityId, u64)>,
    pub gcd_queue: Option<AbilityId>,
    pub ability_cds: Map<AbilityId, u64>,
    pub clipped: bool,
    pub muddled: Option<u64>,
    pub hud_shake_remaining: u64,
    pub ani_lock_remaining: u64,
    pub swiftcast_remaining: Option<u64>,
    pub raging_remaining: Option<u64>,
}

impl View for CombatState {
    type V = CombatModel;

    open spec fn view(&self) -> CombatModel {
        CombatModel {
            gcd_remaining: self.gcd_remaining,
            weaves_in_current_gcd: self.weaves_in_current_gcd,
            cast: self.cast,
            buffer: self.buffer,
            gcd_queue: self.gcd_queue,
            ability_cds: Map::new(
                |id: AbilityId| true,
                |id: AbilityId| self.ability_cds@[id.spec_index()],
            ),
            clipped: self.clipped,
            muddled: self.muddled,
            hud_shake_remaining: self.hud_shake_remaining,
            ani_lock_remaining: self.ani_lock_remaining,
            swiftcast_remaining: self.swiftcast_remaining,
            raging_remaining: self.raging_remaining,
        }
    }
}

impl CombatModel {
    /// The state at the start of a session: nothing runs, nothing is pending.
    pub open spec fn initial() -> CombatModel {
        CombatModel {
            gcd_remaining: 0,
            weaves_in_current_gcd: 0,
            cast: None,
            buffer: None,
            gcd_queue: None,
            ability_cds: Map::new(|id: AbilityId| true, |id: AbilityId| 0u64),
            clipped: false,
            muddled: None,
            hud_shake_remaining: 0,
            ani_lock_remaining: 0,
            swiftcast_remaining: None,
            raging_remaining: None,
        }
    }

    /// Whether `ability` may start right now.
    ///
    /// A rhythm ability needs the rhythm clock at zero. An off-rhythm ability
    /// needs it running, and fewer than two weaves in the window. Both need
    /// their own cooldown at zero, no cast in progress and no animation lock.
    pub open spec fn can_use_now(self, ability: Ability) -> bool {
        &&& self.ability_cds[ability.id] == 0
        &&& self.cast is None
        &&& self.ani_lock_remaining == 0
        &&& if ability.triggers_gcd {
            self.gcd_remaining == 0
        } else {
            self.gcd_remaining > 0 && self.weaves_in_current_gcd < 2
        }
    }

    /// The state after `dt` milliseconds have passed: every timer is lowered
    /// by `dt` and stops at zero, a buffered request whose grace time has run
    /// out is gone, and a buff or debuff that has run out is unset.
    pub open spec fn aged(self, dt: u64) -> CombatModel {
        CombatModel {
            gcd_remaining: sub_floor(self.gcd_remaining, dt),
            cast: match self.cast {
                Some(c) => Some(CastState { remaining: sub_floor(c.remaining, dt), ..c }),
                None => None,
            },
            ability_cds: self.ability_cds.map_values(|left: u64| sub_floor(left, dt)),
            buffer: match self.buffer {
                Some((id, left)) => if left > dt {
                    Some((id, (left - dt) as u64))
                } else {
                    None
                },
                None => None,
            },
            muddled: age_timer(self.muddled, dt),
            hud_shake_remaining: sub_floor(self.hud_shake_remaining, dt),
            ani_lock_remaining: sub_floor(self.ani_lock_remaining, dt),
            swiftcast_remaining: age_timer(self.swiftcast_remaining, dt),
            raging_remaining: age_timer(self.raging_remaining, dt),
            ..self
        }
    }
}

impl CombatState {
    /// The cooldown that `id` has left, in milliseconds.
    pub fn cooldown(&self, id: AbilityId) -> (left: u64)
        ensures
            left == self@.ability_cds[id],
    {
        self.ability_cds[id.index()]
    }

    /// Whether `ability` may start right now.
    pub fn can_use_now(&self, ability: &Ability) -> (usable: bool)
        ensures
            usable == self@.can_use_now(*ability),
    {
        let cd_ready = self.ability_cds[ability.id.index()] == 0;
        let not_casting = self.cast.is_none();
        if ability.triggers_gcd {
            cd_ready && not_casting && self.gcd_remaining == 0 && self.ani_lock_remaining == 0
        } else {
            cd_ready && not_casting && self.gcd_remaining > 0 && self.ani_lock_remaining == 0
                && self.weaves_in_current_gcd < 2
        }
    }
}

impl Default for CombatState {
    /// The state at the start of a session.
    fn default() -> (state: CombatState)
        ensures
            state@ == CombatModel::initial(),
    {
        CombatState {
            gcd_remaining: 0,
            weaves_in_current_gcd: 0,
            cast: None,
            buffer: None,
            gcd_queue: None,
            ability_cds: [0, 0, 0, 0, 0, 0, 0, 0, 0, 0],
            clipped: false,
            muddled: None,
            hud_shake_remaining: 0,
            ani_lock_remaining: 0,
            swiftcast_remaining: None,
            raging_remaining: None,
        }
    }
}

/// Ages every timer by `dt` milliseconds. Nothing is resolved and no event
/// is emitted here. No timer rises, and what has run out is unset.
pub fn tick_combat_timers(dt: u64, combat: &mut CombatState)
    ensures
        final(combat)@ == old(combat)@.aged(dt),
        final(combat)@.no_higher_than(old(combat)@),
        final(combat)@.settled(),
{
    proof {
        lemma_aging_lowers(old(combat)@, dt);
    }
    combat.gcd_remaining = combat.gcd_remaining.saturating_sub(dt);
    if let Some(cast) = combat.cast {
        combat.cast = Some(
            CastState {
                ability: cast.ability,
                remaining: cast.remaining.saturating_sub(dt),
                total: cast.total,
            },
        );
    }
    let mut i: usize = 0;
    while i < ABILITY_COUNT
        invariant
            i <= ABILITY_COUNT,
            forall|k: int|
                0 <= k < i ==> combat.ability_cds@[k] == sub_floor(old(combat).ability_cds@[k], dt),
            forall|k: int|
                i <= k < ABILITY_COUNT ==> combat.ability_cds@[k] == old(combat).ability_cds@[k],
            combat.gcd_remaining == sub_floor(old(combat).gcd_remaining, dt),
            combat.cast == old(combat)@.aged(dt).cast,
            combat.weaves_in_current_gcd == old(combat).weaves_in_current_gcd,
            combat.buffer == old(combat).buffer,
            combat.gcd_queue == old(combat).gcd_queue,
            combat.clipped == old(combat).clipped,
            combat.muddled == old(combat).muddled,
            combat.hud_shake_remaining == old(combat).hud_shake_remaining,
            combat.ani_lock_remaining == old(combat).ani_lock_remaining,
            combat.swiftcast_remaining == old(combat).swiftcast_remaining,
            combat.raging_remaining == old(combat).raging_remaining,
        decreases ABILITY_COUNT - i,
    {
        combat.ability_cds[i] = combat.ability_cds[i].saturating_sub(dt);
        i += 1;
    }
    if let Some((id, left)) = combat.buffer {
        if left > dt {
            combat.buffer = Some((id, left - dt));
        } else {
            combat.buffer = None;
        }
    }
    combat.muddled = aged_timer(combat.muddled, dt);
    combat.hud_shake_remaining = combat.hud_shake_remaining.saturating_sub(dt);
    combat.ani_lock_remaining = combat.ani_lock_remaining.saturating_sub(dt);
    combat.swiftcast_remaining = aged_timer(combat.swiftcast_remaining, dt);
    combat.raging_remaining = aged_timer(combat.raging_remaining, dt);
}

/// Lowers a timer by `dt` and unsets it once it has run out.
fn aged_timer(t: Option<u64>, dt: u64) -> (aged: Option<u64>)
    ensures
        aged == age_timer(t, dt),
{
    match t {
        Some(left) => if left > dt {
            Some(left - dt)
        } else {
            None
        },
        None => None,
    }
}

} // verus!
