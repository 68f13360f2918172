use combat_timing::{Ability, AbilityBook, AbilityId, ABILITY_COUNT};

const ALL: [AbilityId; 10] = [
    AbilityId::Strike,
    AbilityId::Fireball,
    AbilityId::WeaveDash,
    AbilityId::WeaveSong,
    AbilityId::Cleanse,
    AbilityId::Burn,
    AbilityId::Heal,
    AbilityId::Swiftcast,
    AbilityId::Raging,
    AbilityId::Jump,
];

fn profile(book: &AbilityBook, id: AbilityId) -> (&'static str, bool, u64, u64, u64) {
    let a: &Ability = book.get(id);
    assert_eq!(a.id, id);
    (a.name, a.triggers_gcd, a.cast_time, a.cooldown, a.ani_lock)
}

#[test]
fn every_identifier_has_its_own_index() {
    assert_eq!(ABILITY_COUNT, 10);
    for (position, id) in ALL.iter().enumerate() {
        assert_eq!(id.index(), position);
    }
}

#[test]
fn standard_catalog_files_every_profile_under_its_identifier() {
    let book = AbilityBook::default();
    assert_eq!(book.by_id.len(), ABILITY_COUNT);
    for id in ALL {
        assert_eq!(book.get(id).id, id);
        assert_eq!(book.by_id[id.index()].id, id);
    }
}

#[test]
fn standard_catalog_profiles() {
    let book = AbilityBook::default();
    assert_eq!(profile(&book, AbilityId::Strike), ("Strike", true, 0, 2500, 600));
    assert_eq!(profile(&book, AbilityId::Fireball), ("Fireball", true, 1500, 2500, 600));
    assert_eq!(profile(&book, AbilityId::WeaveDash), ("Weave: Dash", false, 0, 20000, 600));
    assert_eq!(profile(&book, AbilityId::WeaveSong), ("Weave: Song", false, 0, 30000, 600));
    assert_eq!(profile(&book, AbilityId::Cleanse), ("Cleanse", false, 0, 12000, 100));
    assert_eq!(profile(&book, AbilityId::Burn), ("Burn", true, 0, 2500, 600));
    assert_eq!(profile(&book, AbilityId::Heal), ("Heal", true, 2000, 2500, 600));
    assert_eq!(profile(&book, AbilityId::Swiftcast), ("Swiftcast", false, 0, 60000, 600));
    assert_eq!(profile(&book, AbilityId::Raging), ("Raging", false, 0, 90000, 600));
    assert_eq!(profile(&book, AbilityId::Jump), ("Jump", false, 0, 30000, 600));
}

#[test]
fn catalog_with_a_misfiled_profile_is_not_well_formed() {
    let mut book = AbilityBook::default();
    assert!(book.is_wf());
    book.by_id[AbilityId::Heal.index()].cooldown = 9000;
    assert!(book.is_wf());
    book.by_id[AbilityId::Heal.index()].id = AbilityId::Burn;
    assert!(!book.is_wf());
    book.by_id.swap(AbilityId::Heal.index(), AbilityId::Burn.index());
    assert!(!book.is_wf());
    book.by_id[AbilityId::Burn.index()].id = AbilityId::Burn;
    book.by_id[AbilityId::Heal.index()].id = AbilityId::Heal;
    assert!(book.is_wf());
    // The last slot is looked at too.
    book.by_id[AbilityId::Jump.index()].id = AbilityId::Strike;
    assert!(!book.is_wf());
}
