//! The ability catalog: a closed set of identifiers and one timing profile
//! for each of them.

use vstd::prelude::*;

verus! {

/// How many abilities there are.
pub const ABILITY_COUNT: usize = 10;

/// The closed set of abilities a player can request.
#[derive(Debug, Clone, Copy, PartialEq, Eq, Hash, Structural)]
pub enum AbilityId {
    /// Instant attack on the shared rhythm.
    Strike,
    /// Cast-time attack on the shared rhythm.
    Fireball,
    /// Instant off-rhythm attack.
    WeaveDash,
    /// Instant off-rhythm attack.
    WeaveSong,
    /// Instant off-rhythm action that removes the impairing debuff.
    Cleanse,
    /// Instant rhythm action that starts a damage-over-time effect.
    Burn,
    /// Cast-time rhythm action without a damage value.
    Heal,
    /// Off-rhythm buff: the next cast is instant.
    Swiftcast,
    /// Off-rhythm buff: rhythm attacks hit harder while it lasts.
    Raging,
    /// Instant off-rhythm attack.
    Jump,
}

impl AbilityId {
    /// Position of the identifier in the catalog and in the cooldown table.
    pub open spec fn spec_index(self) -> int {
        match self {
            AbilityId::Strike => 0,
            AbilityId::Fireball => 1,
            AbilityId::WeaveDash => 2,
            AbilityId::WeaveSong => 3,
            AbilityId::Cleanse => 4,
            AbilityId::Burn => 5,
            AbilityId::Heal => 6,
            AbilityId::Swiftcast => 7,
            AbilityId::Raging => 8,
            AbilityId::Jump => 9,
        }
    }

    /// The identifier that stands at position `i`.
    pub open spec fn at(i: int) -> AbilityId {
        if i == 0 {
            AbilityId::Strike
        } else if i == 1 {
            AbilityId::Fireball
        } else if i == 2 {
            AbilityId::WeaveDash
        } else if i == 3 {
            AbilityId::WeaveSong
        } else if i == 4 {
            AbilityId::Cleanse
        } else if i == 5 {
            AbilityId::Burn
        } else if i == 6 {
            AbilityId::Heal
        } else if i == 7 {
            AbilityId::Swiftcast
        } else if i == 8 {
            AbilityId::Raging
        } else {
            AbilityId::Jump
        }
    }

    /// Position of the identifier in the catalog and in the cooldown table.
    pub fn index(self) -> (i: usize)
        ensures
            i == self.spec_index(),
            i < ABILITY_COUNT,
    {
        match self {
            AbilityId::Strike => 0,
            AbilityId::Fireball => 1,
            AbilityId::WeaveDash => 2,
            AbilityId::WeaveSong => 3,
            AbilityId::Cleanse => 4,
            AbilityId::Burn => 5,
            AbilityId::Heal => 6,
            AbilityId::Swiftcast => 7,
            AbilityId::Raging => 8,
            AbilityId::Jump => 9,
        }
    }
}

/// Timing profile of one ability.
#[derive(Debug, Clone, Copy)]
pub struct Ability {
    pub id: AbilityId,
    pub name: &'static str,
    /// Whether the ability occupies the shared rhythm (the global cooldown).
    pub triggers_gcd: bool,
    /// Cast time in milliseconds; 0 means instant.
    pub cast_time: u64,
    /// Cooldown of this ability in milliseconds.
    pub cooldown: u64,
    /// Animation lock in milliseconds.
    pub ani_lock: u64,
}

/// The longer of two durations.
pub open spec fn longer(a: u64, b: u64) -> u64 {
    if a >= b {
        a
    } else {
        b
    }
}

/// The longest animation lock among `profiles`; zero if there is none.
pub open spec fn longest_lock_among(profiles: Seq<Ability>) -> u64
    decreases profiles.len(),
{
    if profiles.len() == 0 {
        0
    } else {
        longer(longest_lock_among(profiles.drop_last()), profiles.last().ani_lock)
    }
}

/// The profile that the standard catalog holds for `id`.
pub open spec fn standard_profile(id: AbilityId) -> Ability {
    match id {
        AbilityId::Strike => Ability {
            id,
            name: "Strike",
            triggers_gcd: true,
            cast_time: 0,
            cooldown: 2500,
            ani_lock: 600,
        },
        AbilityId::Fireball => Ability {
            id,
            name: "Fireball",
            triggers_gcd: true,
            cast_time: 1500,
            cooldown: 2500,
            ani_lock: 600,
        },
        AbilityId::WeaveDash => Ability {
            id,
            name: "Weave: Dash",
            triggers_gcd: false,
            cast_time: 0,
            cooldown: 20000,
            ani_lock: 600,
        },
        AbilityId::WeaveSong => Ability {
            id,
            name: "Weave: Song",
            triggers_gcd: false,
            cast_time: 0,
            cooldown: 30000,
            ani_lock: 600,
        },
        AbilityId::Cleanse => Ability {
            id,
            name: "Cleanse",
            triggers_gcd: false,
            cast_time: 0,
            cooldown: 12000,
            ani_lock: 100,
        },
        AbilityId::Burn => Ability {
            id,
            name: "Burn",
            triggers_gcd: true,
            cast_time: 0,
            cooldown: 2500,
            ani_lock: 600,
        },
        AbilityId::Heal => Ability {
            id,
            name: "Heal",
            triggers_gcd: true,
            cast_time: 2000,
            cooldown: 2500,
            ani_lock: 600,
        },
        AbilityId::Swiftcast => Ability {
            id,
            name: "Swiftcast",
            triggers_gcd: false,
            cast_time: 0,
            cooldown: 60000,
            ani_lock: 600,
        },
        AbilityId::Raging => Ability {
            id,
            name: "Raging",
            triggers_gcd: false,
            cast_time: 0,
            cooldown: 90000,
            ani_lock: 600,
        },
        AbilityId::Jump => Ability {
            id,
            name: "Jump",
            triggers_gcd: false,
            cast_time: 0,
            cooldown: 30000,
            ani_lock: 600,
        },
    }
}

/// The catalog: one profile for every identifier, at the identifier's index.
pub struct AbilityBook {
    pub by_id: [Ability; ABILITY_COUNT],
}

impl AbilityBook {
    /// The profile the catalog holds for `id`.
    pub open spec fn profile(self, id: AbilityId) -> Ability {
        self.by_id@[id.spec_index()]
    }

    /// Every profile is filed under its own identifier.
    pub open spec fn wf(self) -> bool {
        forall|id: AbilityId| (#[trigger] self.profile(id)).id == id
    }

    /// The longest animation lock of the catalog.
    pub open spec fn longest_ani_lock(self) -> u64 {
        longest_lock_among(self.by_id@)
    }

    /// Whether `ability` is the profile that the catalog holds for its identifier.
    pub open spec fn lists(self, ability: Ability) -> bool {
        self.profile(ability.id) == ability
    }

    /// Whether every profile is filed under its own identifier.
    pub fn is_wf(&self) -> (ok: bool)
        ensures
            ok == self.wf(),
    {
        let mut i: usize = 0;
        while i < ABILITY_COUNT
            invariant
                i <= ABILITY_COUNT,
                forall|k: int| 0 <= k < i ==> (#[trigger] self.by_id@[k]).id.spec_index() == k,
            decreases ABILITY_COUNT - i,
        {
            if self.by_id[i].id.index() != i {
                proof {
                    let id = AbilityId::at(i as int);
                    assert(self.profile(id).id != id);
                }
                return false;
            }
            i += 1;
        }
        proof {
            assert forall|id: AbilityId| (#[trigger] self.profile(id)).id == id by {
                assert(self.by_id@[id.spec_index()].id.spec_index() == id.spec_index());
            }
        }
        true
    }

    /// Looks up the profile of `id`.
    pub fn get(&self, id: AbilityId) -> (ability: &Ability)
        ensures
            *ability == self.profile(id),
    {
        &self.by_id[id.index()]
    }
}

impl Default for AbilityBook {
    /// The standard catalog.
    fn default() -> (book: AbilityBook)
        ensures
            book.wf(),
            forall|id: AbilityId| #[trigger] book.profile(id) == standard_profile(id),
    {
        AbilityBook {
            by_id: [
                Ability {
                    id: AbilityId::Strike,
                    name: "Strike",
                    triggers_gcd: true,
                    cast_time: 0,
                    cooldown: 2500,
                    ani_lock: 600,
                },
                Ability {
                    id: AbilityId::Fireball,
                    name: "Fireball",
                    triggers_gcd: true,
                    cast_time: 1500,
                    cooldown: 2500,
                    ani_lock: 600,
                },
                Ability {
                    id: AbilityId::WeaveDash,
                    name: "Weave: Dash",
                    triggers_gcd: false,
                    cast_time: 0,
                    cooldown: 20000,
                    ani_lock: 600,
                },
                Ability {
                    id: AbilityId::WeaveSong,
                    name: "Weave: Song",
                    triggers_gcd: false,
                    cast_time: 0,
                    cooldown: 30000,
                    ani_lock: 600,
                },
                Ability {
                    id: AbilityId::Cleanse,
                    name: "Cleanse",
                    triggers_gcd: false,
                    cast_time: 0,
                    cooldown: 12000,
                    ani_lock: 100,
                },
                Ability {
                    id: AbilityId::Burn,
                    name: "Burn",
                    triggers_gcd: true,
                    cast_time: 0,
                    cooldown: 2500,
                    ani_lock: 600,
                },
                Ability {
                    id: AbilityId::Heal,
                    name: "Heal",
                    triggers_gcd: true,
                    cast_time: 2000,
                    cooldown: 2500,
                    ani_lock: 600,
                },
                Ability {
                    id: AbilityId::Swiftcast,
                    name: "Swiftcast",
                    triggers_gcd: false,
                    cast_time: 0,
                    cooldown: 60000,
                    ani_lock: 600,
                },
                Ability {
                    id: AbilityId::Raging,
                    name: "Raging",
                    triggers_gcd: false,
                    cast_time: 0,
                    cooldown: 90000,
                    ani_lock: 600,
                },
                Ability {
                    id: AbilityId::Jump,
                    name: "Jump",
                    triggers_gcd: false,
                    cast_time: 0,
                    cooldown: 30000,
                    ani_lock: 600,
                },
            ],
        }
    }
}

} // verus!
