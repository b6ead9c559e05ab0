use battle_core::battle::action::Bash;
use battle_core::battle::action_decision::CharacterTurnDecisionState;
use battle_core::battle::turn::{Announce, SubStateTransition, TurnSubState, TurnUnrollState};
use battle_core::battle::{
    Actor, ActorIdentifier, BattleScene, InputEvent, MacroBattleStates, Target, Team, TurnAction,
};
use battle_core::timer::Timer;

fn decide_all_strikes(scene: &mut BattleScene) {
    // Each living ally: confirm the strike entry, confirm the default
    // target (the first enemy).
    for _ in 0..scene.characters.len() {
        if matches!(scene.state, MacroBattleStates::CharacterTurnDecision(_)) {
            scene.update(0, Some(InputEvent::Confirm));
            scene.update(0, Some(InputEvent::Confirm));
        }
    }
}

#[test]
fn queue_orders_by_speed_with_ties_in_encounter_order() {
    // Allies at speeds 16, 12, 20, 9 against two enemies at 17 each.
    let mut scene = BattleScene::dummy();
    decide_all_strikes(&mut scene);
    assert!(matches!(scene.state, MacroBattleStates::TurnPreparation(_)));
    scene.update(0, None);
    assert!(matches!(scene.state, MacroBattleStates::TurnUnroll(_)));

    let expected = vec![
        TurnAction { id_in_team: 2, team: Team::Ally, speed: 20 },
        TurnAction { id_in_team: 0, team: Team::Enemy, speed: 17 },
        TurnAction { id_in_team: 1, team: Team::Enemy, speed: 17 },
        TurnAction { id_in_team: 0, team: Team::Ally, speed: 16 },
        TurnAction { id_in_team: 1, team: Team::Ally, speed: 12 },
        TurnAction { id_in_team: 3, team: Team::Ally, speed: 9 },
    ];
    assert_eq!(scene.turn_order, expected);
}

#[test]
fn rerunning_the_scheduler_on_the_same_input_gives_the_same_queue() {
    let mut first = BattleScene::dummy();
    decide_all_strikes(&mut first);
    first.update(0, None);
    let mut second = BattleScene::dummy();
    decide_all_strikes(&mut second);
    second.update(0, None);
    assert_eq!(first.turn_order, second.turn_order);
}

#[test]
fn scheduler_leaves_out_fallen_enemies() {
    let mut scene = BattleScene::dummy();
    let hp = scene.enemies[0].hp.current_and_max().0;
    scene.enemies[0].hp.hit(hp);
    decide_all_strikes(&mut scene);
    scene.update(0, None);
    assert_eq!(scene.turn_order.len(), 5);
    assert!(scene
        .turn_order
        .iter()
        .all(|e| !(matches!(e.team, Team::Enemy) && e.id_in_team == 0)));
}

#[test]
fn strike_deals_banded_damage_exactly_once() {
    // Offense 45 against defense 10 at attack level 1: 26 to 43 damage.
    let caster = Actor::character_from_stats("S", 98, 98, 0, 0, 45, 22, 16, 10);
    let mut targets = vec![Actor::enemy_from_stats("T", 53, 53, 0, 0, 35, 10, 17, 8)];
    let mut bash = Bash::new();
    // The cast delay holds the strike back first.
    let t = bash.go(&caster.stats, &mut targets, 0, 1, 999);
    assert!(matches!(t, SubStateTransition::Stay));
    assert_eq!(targets[0].hp.current_and_max().0, 53);
    let t = bash.go(&caster.stats, &mut targets, 0, 1, 1);
    assert!(matches!(
        t,
        SubStateTransition::NextSubState(TurnSubState::NextAction)
    ));
    let hp = targets[0].hp.current_and_max().0;
    assert!((10..=27).contains(&hp), "hp {} out of band", hp);
}

#[test]
fn strike_on_a_rolling_meter_reaims_the_target_only() {
    let caster = Actor::character_from_stats("S", 98, 98, 0, 0, 45, 22, 16, 10);
    let mut targets = vec![Actor::character_from_stats("T", 90, 90, 0, 0, 10, 10, 10, 10)];
    let mut bash = Bash::new();
    bash.go(&caster.stats, &mut targets, 0, 1, 1000);
    // The visible value has not moved yet; it converges over time.
    assert_eq!(targets[0].hp.current_and_max().0, 90);
    let target_value = match targets[0].hp {
        battle_core::meters::Meter::Rolling(r) => r.target_value,
        _ => panic!("expected a rolling meter"),
    };
    assert!((90 - 43..=90 - 26).contains(&target_value));
    targets[0].update_meters(1000);
    assert_eq!(targets[0].hp.current_and_max().0, 89);
}

#[test]
fn cancelled_strike_produces_no_effect() {
    let caster = Actor::character_from_stats("S", 98, 98, 0, 0, 45, 22, 16, 10);
    let mut targets = vec![Actor::enemy_from_stats("T", 53, 53, 0, 0, 35, 10, 17, 8)];
    let mut bash = Bash::new();
    bash.cancel();
    let t = bash.go(&caster.stats, &mut targets, 0, 1, 5000);
    assert!(matches!(
        t,
        SubStateTransition::NextSubState(TurnSubState::NextAction)
    ));
    assert_eq!(targets[0].hp.current_and_max().0, 53);
}

#[test]
fn announce_waits_out_its_delay_then_carries_the_action_on() {
    let caster = ActorIdentifier { team: Team::Ally, index: 0 };
    let target = Target::Single(ActorIdentifier { team: Team::Enemy, index: 0 });
    let mut a = Announce::new(Bash::new(), caster, target);
    let t = a.update(400);
    assert!(matches!(t, SubStateTransition::Stay));
    let t = a.update(600);
    match t {
        SubStateTransition::NextSubState(TurnSubState::DoIt(d)) => {
            assert_eq!(d.caster, caster);
            assert_eq!(d.target, target);
        }
        _ => panic!("expected the execute phase"),
    }
}

#[test]
fn caster_falling_during_wind_up_cancels_its_strike() {
    let mut scene = BattleScene::dummy();
    // The first ally is announcing a strike on the first enemy.
    scene.state = MacroBattleStates::TurnUnroll(TurnUnrollState {
        sub_state: TurnSubState::Announce(Announce::new(
            Bash::new(),
            ActorIdentifier { team: Team::Ally, index: 0 },
            Target::Single(ActorIdentifier { team: Team::Enemy, index: 0 }),
        )),
    });
    // And it is about to fall: one HP left, headed for zero.
    let hp = scene.characters[0].hp.current_and_max().0;
    scene.characters[0].hp.hit(hp);
    if let battle_core::meters::Meter::Rolling(ref mut r) = scene.characters[0].hp {
        r.current_value = 1;
    }
    // The wind-up elapses in the same frame the caster falls.
    scene.update(1000, None);
    assert_eq!(scene.characters[0].hp.current_and_max().0, 0);
    // Let the cancelled execute phase run out.
    for _ in 0..10 {
        if matches!(scene.state, MacroBattleStates::TurnUnroll(_)) {
            scene.update(1000, None);
        }
    }
    // The strike never landed.
    assert_eq!(scene.enemies[0].hp.current_and_max().0, 53);
}

#[test]
fn timer_counts_down_and_stops_at_zero() {
    let mut t = Timer::new(1000);
    assert!(!t.done());
    t.tick(400);
    assert!(!t.done());
    t.tick(700);
    assert!(t.done());
    assert_eq!(t.remaining_ms, 0);
}

#[test]
fn win_takes_precedence_on_simultaneous_depletion() {
    // Both lineups fully depleted in the same tick: the battle counts
    // as won, never as lost.
    let mut scene = BattleScene::dummy();
    for a in scene.characters.iter_mut() {
        let hp = a.hp.current_and_max().0;
        a.hp.hit(hp);
        if let battle_core::meters::Meter::Rolling(ref mut r) = a.hp {
            r.current_value = 0;
        }
    }
    for e in scene.enemies.iter_mut() {
        let hp = e.hp.current_and_max().0;
        e.hp.hit(hp);
    }
    assert!(scene.end_of_fight());
    assert!(matches!(
        scene.get_end_state(),
        Some(MacroBattleStates::Win)
    ));
}

#[test]
fn game_over_when_only_the_allies_fall() {
    let mut scene = BattleScene::dummy();
    for a in scene.characters.iter_mut() {
        let hp = a.hp.current_and_max().0;
        a.hp.hit(hp);
        if let battle_core::meters::Meter::Rolling(ref mut r) = a.hp {
            r.current_value = 0;
        }
    }
    assert!(matches!(
        scene.get_end_state(),
        Some(MacroBattleStates::GameOver)
    ));
}

#[test]
fn undecided_battle_has_no_end_state() {
    let scene = BattleScene::dummy();
    assert!(!scene.end_of_fight());
    assert!(scene.get_end_state().is_none());
}

#[test]
fn guard_resolves_without_any_effect() {
    let mut scene = BattleScene::dummy();
    // Every ally guards.
    for _ in 0..4 {
        scene.update(0, Some(InputEvent::PageEnd));
        scene.update(0, Some(InputEvent::Confirm));
    }
    assert!(matches!(scene.state, MacroBattleStates::TurnPreparation(_)));
    scene.update(0, None);
    // Resolve the whole turn; only the two enemies act.
    let before: Vec<u16> = scene
        .enemies
        .iter()
        .map(|e| e.hp.current_and_max().0)
        .collect();
    for _ in 0..200 {
        if matches!(scene.state, MacroBattleStates::TurnUnroll(_)) {
            scene.update(250, None);
        }
    }
    let after: Vec<u16> = scene
        .enemies
        .iter()
        .map(|e| e.hp.current_and_max().0)
        .collect();
    // Guarding allies never struck anyone.
    assert_eq!(before, after);
    // The enemies struck the first ally: its rolling target dropped.
    let ally_target = match scene.characters[0].hp {
        battle_core::meters::Meter::Rolling(r) => r.target_value,
        _ => panic!("expected a rolling meter"),
    };
    assert!(ally_target < 98);
}

#[test]
fn a_full_battle_runs_to_victory() {
    let mut scene = BattleScene::dummy();
    let mut steps = 0;
    loop {
        match scene.state {
            MacroBattleStates::Win => break,
            MacroBattleStates::GameOver => panic!("the allies should win this encounter"),
            MacroBattleStates::CharacterTurnDecision(CharacterTurnDecisionState::Menu(_)) => {
                scene.update(100, Some(InputEvent::Confirm));
            }
            MacroBattleStates::CharacterTurnDecision(_) => {
                // Cycle once so the strike aims at a living enemy, then
                // commit it.
                scene.update(100, Some(InputEvent::Left));
                scene.update(100, Some(InputEvent::Confirm));
            }
            _ => scene.update(500, None),
        }
        steps += 1;
        assert!(steps < 5000, "battle did not terminate");
    }
    assert!(scene.enemies.iter().all(|e| e.hp.current_and_max().0 == 0));
}
