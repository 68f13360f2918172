use combat_timing::{
    apply_hud_shake, run_enemy_timeline, CombatState, EnemyEvent, EnemyTimeline, HudShakeEvent,
    ENRAGE_MUDDLED, ENRAGE_SHAKE,
};

#[test]
fn empty_script_gets_the_default_schedule() {
    let mut timeline = EnemyTimeline::default();
    assert_eq!((timeline.t, timeline.idx), (0, 0));
    assert!(timeline.events.is_empty());
    timeline.t = 77;
    timeline.idx = 3;
    timeline.ensure_default_events();
    assert_eq!(
        timeline.events,
        vec![
            (3000, EnemyEvent::HudShake { duration: 1000 }),
            (6000, EnemyEvent::Muddled { duration: 8000 }),
            (15000, EnemyEvent::HudShake { duration: 1500 }),
            (25000, EnemyEvent::Enrage),
        ]
    );
    assert_eq!((timeline.t, timeline.idx), (0, 0));
}

#[test]
fn script_with_entries_is_left_as_it_is() {
    let mut timeline = EnemyTimeline {
        t: 40,
        idx: 1,
        events: vec![(10, EnemyEvent::Enrage), (50, EnemyEvent::Muddled { duration: 9 })],
    };
    timeline.ensure_default_events();
    assert_eq!((timeline.t, timeline.idx), (40, 1));
    assert_eq!(
        timeline.events,
        vec![(10, EnemyEvent::Enrage), (50, EnemyEvent::Muddled { duration: 9 })]
    );
}

#[test]
fn several_entries_trigger_in_one_long_tick() {
    let mut timeline = EnemyTimeline::default();
    let mut combat = CombatState::default();
    let mut shakes: Vec<HudShakeEvent> = Vec::new();
    run_enemy_timeline(15000, &mut timeline, &mut combat, &mut shakes);
    assert_eq!(shakes, vec![HudShakeEvent(1000), HudShakeEvent(1500)]);
    assert_eq!(combat.muddled, Some(8000));
    assert_eq!(combat.hud_shake_remaining, 0);
    assert_eq!((timeline.t, timeline.idx), (15000, 3));
}

#[test]
fn debuff_entry_overwrites_the_debuff() {
    let mut timeline = EnemyTimeline {
        t: 0,
        idx: 0,
        events: vec![
            (100, EnemyEvent::Muddled { duration: 8000 }),
            (100, EnemyEvent::Muddled { duration: 200 }),
        ],
    };
    let mut combat = CombatState::default();
    combat.muddled = Some(60000);
    let mut shakes: Vec<HudShakeEvent> = Vec::new();
    run_enemy_timeline(100, &mut timeline, &mut combat, &mut shakes);
    assert_eq!(combat.muddled, Some(200));
    assert_eq!(timeline.idx, 2);
    // Past the last entry the clock runs on and nothing triggers.
    run_enemy_timeline(100000, &mut timeline, &mut combat, &mut shakes);
    assert_eq!((timeline.t, timeline.idx), (100100, 2));
    assert_eq!(combat.muddled, Some(200));
    assert!(shakes.is_empty());
}

#[test]
fn enrage_keeps_a_longer_alert_and_forces_the_debuff() {
    assert_eq!(ENRAGE_SHAKE, 2000);
    assert_eq!(ENRAGE_MUDDLED, 5000);
    let mut timeline = EnemyTimeline { t: 0, idx: 0, events: vec![(10, EnemyEvent::Enrage)] };
    let mut combat = CombatState::default();
    combat.hud_shake_remaining = 3500;
    combat.muddled = Some(9000);
    let mut shakes: Vec<HudShakeEvent> = Vec::new();
    run_enemy_timeline(10, &mut timeline, &mut combat, &mut shakes);
    assert_eq!(combat.hud_shake_remaining, 3500);
    assert_eq!(combat.muddled, Some(5000));
    assert_eq!((timeline.t, timeline.idx), (0, 0));

    combat.hud_shake_remaining = 1999;
    combat.muddled = None;
    run_enemy_timeline(10, &mut timeline, &mut combat, &mut shakes);
    assert_eq!(combat.hud_shake_remaining, 2000);
    assert_eq!(combat.muddled, Some(5000));
    assert!(shakes.is_empty());
}

#[test]
fn enrage_ends_the_run_of_the_tick() {
    // After the enrage the first entry would be due at once, at time zero:
    // it waits for the next tick.
    let mut timeline = EnemyTimeline {
        t: 0,
        idx: 0,
        events: vec![(0, EnemyEvent::HudShake { duration: 300 }), (5, EnemyEvent::Enrage)],
    };
    let mut combat = CombatState::default();
    let mut shakes: Vec<HudShakeEvent> = Vec::new();
    run_enemy_timeline(5, &mut timeline, &mut combat, &mut shakes);
    assert_eq!(shakes, vec![HudShakeEvent(300)]);
    assert_eq!((timeline.t, timeline.idx), (0, 0));
    run_enemy_timeline(0, &mut timeline, &mut combat, &mut shakes);
    assert_eq!(shakes, vec![HudShakeEvent(300), HudShakeEvent(300)]);
    assert_eq!((timeline.t, timeline.idx), (0, 1));
}

#[test]
fn entries_after_an_enrage_are_not_reached() {
    let mut timeline = EnemyTimeline {
        t: 0,
        idx: 0,
        events: vec![
            (100, EnemyEvent::Enrage),
            (100, EnemyEvent::HudShake { duration: 300 }),
            (100, EnemyEvent::Muddled { duration: 1 }),
        ],
    };
    let mut combat = CombatState::default();
    let mut shakes: Vec<HudShakeEvent> = Vec::new();
    run_enemy_timeline(500, &mut timeline, &mut combat, &mut shakes);
    assert!(shakes.is_empty());
    assert_eq!(combat.muddled, Some(5000));
    assert_eq!((timeline.t, timeline.idx), (0, 0));
}

#[test]
fn cursor_beyond_the_schedule_triggers_nothing() {
    let mut timeline = EnemyTimeline { t: 0, idx: 9, events: vec![(0, EnemyEvent::Enrage)] };
    let mut combat = CombatState::default();
    let mut shakes: Vec<HudShakeEvent> = Vec::new();
    run_enemy_timeline(50, &mut timeline, &mut combat, &mut shakes);
    assert_eq!((timeline.t, timeline.idx), (50, 9));
    assert_eq!(combat, CombatState::default());
}

#[test]
fn alert_time_is_the_longest_of_pending_and_new() {
    let mut combat = CombatState::default();
    combat.hud_shake_remaining = 1200;
    apply_hud_shake(&vec![HudShakeEvent(1000)], &mut combat);
    assert_eq!(combat.hud_shake_remaining, 1200);
    apply_hud_shake(&vec![HudShakeEvent(1500), HudShakeEvent(1300)], &mut combat);
    assert_eq!(combat.hud_shake_remaining, 1500);
    apply_hud_shake(&vec![], &mut combat);
    assert_eq!(combat.hud_shake_remaining, 1500);
    let mut other = CombatState::default();
    other.muddled = Some(5);
    apply_hud_shake(&vec![HudShakeEvent(1)], &mut other);
    assert_eq!(other.hud_shake_remaining, 1);
    assert_eq!(other.muddled, Some(5));
}
