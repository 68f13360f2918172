use combat_timing::{
    reset_combat, reset_session, tick_combat_timers, AbilityBook, AbilityId, CastState,
    CombatState, EnemyEvent, EnemyTimeline, BUFFER_GRACE, GCD_LENGTH, GCD_QUEUE_WINDOW,
    RAGING_WINDOW, SWIFTCAST_WINDOW,
};

fn busy_state() -> CombatState {
    let mut combat = CombatState::default();
    combat.gcd_remaining = 2500;
    combat.weaves_in_current_gcd = 1;
    combat.cast = Some(CastState { ability: AbilityId::Heal, remaining: 2000, total: 2000 });
    combat.buffer = Some((AbilityId::Cleanse, 400));
    combat.gcd_queue = Some(AbilityId::Strike);
    combat.ability_cds[AbilityId::Strike.index()] = 2500;
    combat.ability_cds[AbilityId::Jump.index()] = 30000;
    combat.clipped = false;
    combat.muddled = Some(8000);
    combat.hud_shake_remaining = 1500;
    combat.ani_lock_remaining = 600;
    combat.swiftcast_remaining = Some(10000);
    combat.raging_remaining = Some(15000);
    combat
}

#[test]
fn constants_are_in_milliseconds() {
    assert_eq!(GCD_LENGTH, 2500);
    assert_eq!(GCD_QUEUE_WINDOW, 600);
    assert_eq!(BUFFER_GRACE, 400);
    assert_eq!(SWIFTCAST_WINDOW, 10000);
    assert_eq!(RAGING_WINDOW, 15000);
}

#[test]
fn a_new_session_has_nothing_running() {
    let combat = CombatState::default();
    assert_eq!(combat.gcd_remaining, 0);
    assert_eq!(combat.weaves_in_current_gcd, 0);
    assert_eq!(combat.cast, None);
    assert_eq!(combat.buffer, None);
    assert_eq!(combat.gcd_queue, None);
    assert_eq!(combat.ability_cds, [0u64; 10]);
    assert!(!combat.clipped);
    assert_eq!(combat.muddled, None);
    assert_eq!(combat.hud_shake_remaining, 0);
    assert_eq!(combat.ani_lock_remaining, 0);
    assert_eq!(combat.swiftcast_remaining, None);
    assert_eq!(combat.raging_remaining, None);
}

#[test]
fn reset_puts_a_busy_state_back_to_the_start() {
    let mut combat = busy_state();
    reset_combat(&mut combat);
    assert_eq!(combat, CombatState::default());
}

#[test]
fn reset_of_a_session_also_puts_the_script_back() {
    let mut combat = busy_state();
    let mut timeline = EnemyTimeline {
        t: 4200,
        idx: 1,
        events: vec![(10, EnemyEvent::Enrage), (50, EnemyEvent::Muddled { duration: 9 })],
    };
    reset_session(&mut combat, &mut timeline);
    assert_eq!(combat, CombatState::default());
    assert_eq!((timeline.t, timeline.idx), (0, 0));
    assert!(timeline.events.is_empty());
}

#[test]
fn tick_lowers_every_timer_by_the_elapsed_time() {
    let mut combat = busy_state();
    tick_combat_timers(250, &mut combat);
    assert_eq!(combat.gcd_remaining, 2250);
    assert_eq!(
        combat.cast,
        Some(CastState { ability: AbilityId::Heal, remaining: 1750, total: 2000 })
    );
    assert_eq!(combat.buffer, Some((AbilityId::Cleanse, 150)));
    assert_eq!(combat.ability_cds[AbilityId::Strike.index()], 2250);
    assert_eq!(combat.ability_cds[AbilityId::Jump.index()], 29750);
    assert_eq!(combat.ability_cds[AbilityId::Burn.index()], 0);
    assert_eq!(combat.muddled, Some(7750));
    assert_eq!(combat.hud_shake_remaining, 1250);
    assert_eq!(combat.ani_lock_remaining, 350);
    assert_eq!(combat.swiftcast_remaining, Some(9750));
    assert_eq!(combat.raging_remaining, Some(14750));
    // What is no timer is left alone.
    assert_eq!(combat.weaves_in_current_gcd, 1);
    assert_eq!(combat.gcd_queue, Some(AbilityId::Strike));
    assert!(!combat.clipped);
}

#[test]
fn tick_stops_every_timer_at_zero() {
    let mut combat = busy_state();
    tick_combat_timers(1_000_000, &mut combat);
    assert_eq!(combat.gcd_remaining, 0);
    // The cast stays in its slot at zero: it is resolved by the next phase.
    assert_eq!(
        combat.cast,
        Some(CastState { ability: AbilityId::Heal, remaining: 0, total: 2000 })
    );
    assert_eq!(combat.ability_cds, [0u64; 10]);
    assert_eq!(combat.buffer, None);
    assert_eq!(combat.muddled, None);
    assert_eq!(combat.hud_shake_remaining, 0);
    assert_eq!(combat.ani_lock_remaining, 0);
    assert_eq!(combat.swiftcast_remaining, None);
    assert_eq!(combat.raging_remaining, None);
    assert_eq!(combat.gcd_queue, Some(AbilityId::Strike));
}

#[test]
fn tick_with_the_largest_elapsed_time_does_not_wrap() {
    let mut combat = busy_state();
    combat.gcd_remaining = u64::MAX;
    tick_combat_timers(u64::MAX, &mut combat);
    assert_eq!(combat.gcd_remaining, 0);
    assert_eq!(combat.ani_lock_remaining, 0);
}

#[test]
fn a_buff_is_unset_exactly_when_it_reaches_zero() {
    let mut combat = CombatState::default();
    combat.muddled = Some(100);
    combat.swiftcast_remaining = Some(100);
    combat.raging_remaining = Some(101);
    combat.buffer = Some((AbilityId::Strike, 100));
    tick_combat_timers(99, &mut combat);
    assert_eq!(combat.muddled, Some(1));
    assert_eq!(combat.swiftcast_remaining, Some(1));
    assert_eq!(combat.raging_remaining, Some(2));
    assert_eq!(combat.buffer, Some((AbilityId::Strike, 1)));
    tick_combat_timers(1, &mut combat);
    assert_eq!(combat.muddled, None);
    assert_eq!(combat.swiftcast_remaining, None);
    assert_eq!(combat.raging_remaining, Some(1));
    assert_eq!(combat.buffer, None);
}

#[test]
fn tick_of_no_time_changes_nothing() {
    let mut combat = busy_state();
    let before = combat;
    tick_combat_timers(0, &mut combat);
    assert_eq!(combat, before);

    let mut fresh = CombatState::default();
    tick_combat_timers(0, &mut fresh);
    assert_eq!(fresh, CombatState::default());
}

#[test]
fn tick_of_no_time_unsets_a_buff_that_stands_at_zero() {
    let mut combat = CombatState::default();
    combat.muddled = Some(0);
    combat.buffer = Some((AbilityId::Jump, 0));
    tick_combat_timers(0, &mut combat);
    assert_eq!(combat.muddled, None);
    assert_eq!(combat.buffer, None);
}

#[test]
fn timers_stay_within_their_maxima_over_many_ticks() {
    let book = AbilityBook::default();
    let mut combat = busy_state();
    let mut last = combat;
    for dt in [0u64, 1, 16, 17, 33, 250, 0, 400, 1000, 5000, 20000, 100000] {
        tick_combat_timers(dt, &mut combat);
        assert!(combat.gcd_remaining <= GCD_LENGTH);
        assert!(combat.gcd_remaining <= last.gcd_remaining);
        let cast = combat.cast.expect("the cast stays in its slot");
        assert!(cast.remaining <= cast.total);
        assert!(cast.total <= book.get(cast.ability).cast_time);
        for (slot, left) in combat.ability_cds.iter().enumerate() {
            assert!(*left <= book.by_id[slot].cooldown);
            assert!(*left <= last.ability_cds[slot]);
        }
        if let Some((_, left)) = combat.buffer {
            assert!(left > 0 && left <= BUFFER_GRACE);
        }
        assert!(combat.ani_lock_remaining <= 600);
        assert!(combat.hud_shake_remaining <= last.hud_shake_remaining);
        if let Some(left) = combat.swiftcast_remaining {
            assert!(left > 0 && left <= SWIFTCAST_WINDOW);
        }
        if let Some(left) = combat.raging_remaining {
            assert!(left > 0 && left <= RAGING_WINDOW);
        }
        if let Some(left) = combat.muddled {
            assert!(left > 0 && left <= 8000);
        }
        last = combat;
    }
    assert_eq!(combat.gcd_remaining, 0);
    assert_eq!(combat.ability_cds, [0u64; 10]);
}
