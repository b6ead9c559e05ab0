use battle_core::battle::action_decision::{
    cycle_next_target, cycle_previous_target, get_possible_targets, CharacterTurnDecisionState,
};
use battle_core::battle::{
    Actor, ActorIdentifier, BattleScene, InputEvent, MacroBattleStates, Target, Team,
};

fn menu_cursor(scene: &BattleScene) -> usize {
    match scene.state {
        MacroBattleStates::CharacterTurnDecision(s) => s.current_shared().current_item,
        _ => panic!("not in a decision state"),
    }
}

fn deciding_ally(scene: &BattleScene) -> usize {
    match scene.state {
        MacroBattleStates::CharacterTurnDecision(s) => s.current_shared().current_character,
        _ => panic!("not in a decision state"),
    }
}

#[test]
fn dummy_opens_on_the_first_ally_menu() {
    let scene = BattleScene::dummy();
    assert_eq!(deciding_ally(&scene), 0);
    assert_eq!(menu_cursor(&scene), 0);
    assert_eq!(scene.characters.len(), 4);
    assert_eq!(scene.enemies.len(), 2);
}

#[test]
fn menu_cursor_moves_and_clamps() {
    let mut scene = BattleScene::dummy();
    scene.update(0, Some(InputEvent::Left));
    assert_eq!(menu_cursor(&scene), 0);
    scene.update(0, Some(InputEvent::Right));
    assert_eq!(menu_cursor(&scene), 1);
    scene.update(0, Some(InputEvent::PageEnd));
    assert_eq!(menu_cursor(&scene), 4);
    scene.update(0, Some(InputEvent::Right));
    assert_eq!(menu_cursor(&scene), 4);
    scene.update(0, Some(InputEvent::PageStart));
    assert_eq!(menu_cursor(&scene), 0);
}

#[test]
fn confirm_opens_strike_selection_and_cancel_returns() {
    let mut scene = BattleScene::dummy();
    scene.update(0, Some(InputEvent::Right));
    scene.update(0, Some(InputEvent::Left));
    scene.update(0, Some(InputEvent::Confirm));
    assert!(matches!(
        scene.state,
        MacroBattleStates::CharacterTurnDecision(CharacterTurnDecisionState::Bash(_))
    ));
    scene.update(0, Some(InputEvent::Cancel));
    assert!(matches!(
        scene.state,
        MacroBattleStates::CharacterTurnDecision(CharacterTurnDecisionState::Menu(_))
    ));
    assert_eq!(deciding_ally(&scene), 0);
}

#[test]
fn confirming_a_strike_commits_a_record_and_advances() {
    let mut scene = BattleScene::dummy();
    scene.update(0, Some(InputEvent::Confirm));
    scene.update(0, Some(InputEvent::Confirm));
    assert_eq!(scene.allies_actions.len(), 1);
    assert_eq!(scene.allies_actions[0].id_in_team, 0);
    assert_eq!(scene.allies_actions[0].registered_speed, 16);
    assert_eq!(deciding_ally(&scene), 1);
}

#[test]
fn registered_speed_is_a_decision_time_snapshot() {
    let mut scene = BattleScene::dummy();
    scene.characters[0].stats.speed.buff(3);
    scene.update(0, Some(InputEvent::Confirm));
    scene.update(0, Some(InputEvent::Confirm));
    // Speed 16 doubled by the +3 modifier at decision time.
    assert_eq!(scene.allies_actions[0].registered_speed, 32);
    // A later debuff must not touch the snapshot.
    scene.characters[0].stats.speed.buff(-6);
    assert_eq!(scene.allies_actions[0].registered_speed, 32);
}

#[test]
fn cancel_at_the_first_ally_is_a_no_op() {
    let mut scene = BattleScene::dummy();
    scene.update(0, Some(InputEvent::Cancel));
    assert_eq!(deciding_ally(&scene), 0);
}

#[test]
fn cancel_steps_back_to_the_previous_living_ally_and_drops_its_record() {
    let mut scene = BattleScene::dummy();
    scene.update(0, Some(InputEvent::Confirm));
    scene.update(0, Some(InputEvent::Confirm));
    assert_eq!(deciding_ally(&scene), 1);
    assert_eq!(scene.allies_actions.len(), 1);
    scene.update(0, Some(InputEvent::Cancel));
    assert_eq!(deciding_ally(&scene), 0);
    // The first ally decides afresh: its committed record is gone.
    assert_eq!(scene.allies_actions.len(), 0);
}

#[test]
fn guard_commits_a_record_without_target_selection() {
    let mut scene = BattleScene::dummy();
    scene.update(0, Some(InputEvent::PageEnd));
    scene.update(0, Some(InputEvent::Confirm));
    assert_eq!(scene.allies_actions.len(), 1);
    assert!(matches!(
        scene.allies_actions[0].action_type,
        battle_core::battle::ActionType::Guard
    ));
    assert_eq!(deciding_ally(&scene), 1);
}

#[test]
fn ko_signal_skips_the_deciding_ally_without_a_record() {
    let mut scene = BattleScene::dummy();
    // Aim the first ally's rolling HP at zero; one millisecond per point.
    let hp = scene.characters[0].hp.current_and_max().0;
    scene.characters[0].hp.hit(hp);
    if let battle_core::meters::Meter::Rolling(ref mut r) = scene.characters[0].hp {
        r.rate_multiplier = 65536;
    }
    // The crossing to zero raises the signal; the same frame's decision
    // step yields a skip, not a committed action.
    scene.update(2000, Some(InputEvent::Confirm));
    assert_eq!(scene.characters[0].hp.current_and_max().0, 0);
    assert_eq!(scene.allies_actions.len(), 0);
    assert_eq!(deciding_ally(&scene), 1);
}

#[test]
fn decision_skips_allies_that_fell_earlier() {
    let mut scene = BattleScene::dummy();
    // The second ally is down before its turn comes.
    let hp = scene.characters[1].hp.current_and_max().0;
    scene.characters[1].hp.hit(hp);
    if let battle_core::meters::Meter::Rolling(ref mut r) = scene.characters[1].hp {
        r.current_value = 0;
        r.accumulator = 0;
    }
    scene.update(0, Some(InputEvent::Confirm));
    scene.update(0, Some(InputEvent::Confirm));
    // The flow moves straight past the fallen ally to the third.
    assert_eq!(deciding_ally(&scene), 2);
}

fn lineup() -> Vec<Actor> {
    vec![
        Actor::enemy_from_stats("A", 10, 10, 0, 0, 1, 1, 1, 1),
        Actor::enemy_from_stats("B", 0, 10, 0, 0, 1, 1, 1, 1),
        Actor::enemy_from_stats("C", 10, 10, 0, 0, 1, 1, 1, 1),
    ]
}

fn single(index: usize) -> Target {
    Target::Single(ActorIdentifier { team: Team::Enemy, index })
}

#[test]
fn cycling_backward_skips_the_fallen() {
    let targets = lineup();
    let t = cycle_previous_target(single(2), false, &targets);
    assert_eq!(t, single(0));
    // From the front it wraps forward to the next living candidate.
    let t = cycle_previous_target(single(0), false, &targets);
    assert_eq!(t, single(2));
}

#[test]
fn cycling_forward_skips_the_fallen() {
    let targets = lineup();
    let t = cycle_next_target(single(0), false, &targets);
    assert_eq!(t, single(2));
    let t = cycle_next_target(single(2), false, &targets);
    assert_eq!(t, single(0));
}

#[test]
fn cycling_may_aim_the_fallen_when_allowed() {
    let targets = lineup();
    let t = cycle_next_target(single(0), true, &targets);
    assert_eq!(t, single(1));
}

#[test]
fn target_pool_follows_the_selections_team() {
    let allies = vec![Actor::character_from_stats("A", 10, 10, 0, 0, 1, 1, 1, 1)];
    let enemies = lineup();
    let toward_enemies = single(0);
    let pool = get_possible_targets(&toward_enemies, &allies, &enemies);
    assert_eq!(pool.len(), 3);
    let toward_allies = Target::Single(ActorIdentifier { team: Team::Ally, index: 0 });
    let pool = get_possible_targets(&toward_allies, &allies, &enemies);
    assert_eq!(pool.len(), 1);
}

#[test]
fn whole_team_targets_do_not_cycle() {
    let targets = lineup();
    let whole = Target::WholeTeam(Team::Enemy);
    assert_eq!(cycle_previous_target(whole, false, &targets), whole);
    assert_eq!(cycle_next_target(whole, false, &targets), whole);
}
