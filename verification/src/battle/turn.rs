//! Turn resolution: the sub-machine that consumes the turn queue one
//! entry at a time, running an announce/execute protocol per action.

use vstd::prelude::*;

use crate::battle::action::{struck, Bash, STRIKE_CAST_MS};
use crate::battle::action_decision::{
    first_living_from, lemma_first_living_exists, AllyActionRecord, CharacterTurnDecisionState,
};
use crate::battle::{
    ActionType, Actor, ActorIdentifier, BattleScene, MacroBattleStates, Target, Team, TurnAction,
};
use crate::timer::Timer;

verus! {

/// The fixed wind-up delay before an announced action executes, in
/// milliseconds.
pub const ANNOUNCE_MS: u64 = 1000;

/// What one frame of a resolution sub-state asks of the sub-machine.
#[derive(Clone, Copy, Debug, PartialEq, Eq, Structural)]
pub enum SubStateTransition {
    /// Keep the current sub-state for another frame.
    Stay,
    NextSubState(TurnSubState),
    EndOfTurn,
}

/// The wind-up phase: a fixed delay with no mechanical effect, carrying
/// the action, its caster and its target forward.
#[derive(Clone, Copy, Debug, PartialEq, Eq, Structural)]
pub struct Announce {
    pub time: Timer,
    pub announced_action: Bash,
    pub caster: ActorIdentifier,
    pub target: Target,
}

impl Announce {
    pub fn new(announced_action: Bash, caster: ActorIdentifier, target: Target) -> (a: Announce)
        ensures
            a == (Announce {
                time: Timer { remaining_ms: ANNOUNCE_MS },
                announced_action,
                caster,
                target,
            }),
    {
        Announce { time: Timer::new(ANNOUNCE_MS), announced_action, caster, target }
    }

    /// Wait the wind-up out; on timeout hand the same action, caster and
    /// target to the execution phase.
    pub fn update(&mut self, dt_ms: u64) -> (t: SubStateTransition)
        ensures
            final(self).announced_action == old(self).announced_action,
            final(self).caster == old(self).caster,
            final(self).target == old(self).target,
            old(self).time.remaining_ms > dt_ms ==> {
                &&& t == SubStateTransition::Stay
                &&& final(self).time.remaining_ms == old(self).time.remaining_ms - dt_ms
            },
            old(self).time.remaining_ms <= dt_ms ==> t == SubStateTransition::NextSubState(
                TurnSubState::DoIt(
                    DoIt {
                        action: old(self).announced_action,
                        caster: old(self).caster,
                        target: old(self).target,
                    },
                ),
            ),
    {
        self.time.tick(dt_ms);
        if self.time.done() {
            return SubStateTransition::NextSubState(TurnSubState::DoIt(DoIt::new(
                self.announced_action,
                self.caster,
                self.target,
            )));
        }
        SubStateTransition::Stay
    }
}

/// The execution phase: the action is run against the live roster.
#[derive(Clone, Copy, Debug, PartialEq, Eq, Structural)]
pub struct DoIt {
    pub action: Bash,
    pub caster: ActorIdentifier,
    pub target: Target,
}

impl DoIt {
    pub fn new(action: Bash, caster: ActorIdentifier, target: Target) -> (d: DoIt)
        ensures
            d == (DoIt { action, caster, target }),
    {
        DoIt { action, caster, target }
    }
}

/// The three phases of resolving one queued action.
#[derive(Clone, Copy, Debug, PartialEq, Eq, Structural)]
pub enum TurnSubState {
    /// Pop the queue and decide what the next entry does.
    NextAction,
    /// The fixed wind-up before the effect.
    Announce(Announce),
    /// The effect itself.
    DoIt(DoIt),
}

/// The resolution sub-machine: one sub-state at a time, consuming the
/// turn queue front to back.
#[derive(Clone, Copy, Debug, PartialEq, Eq, Structural)]
pub struct TurnUnrollState {
    pub sub_state: TurnSubState,
}

/// The first committed record of the given ally, scanning front to
/// back.
pub open spec fn spec_find_record(records: Seq<AllyActionRecord>, id: usize) -> Option<
    AllyActionRecord,
>
    decreases records.len(),
{
    if records.len() == 0 {
        Option::None
    } else if records[0].id_in_team == id {
        Option::Some(records[0])
    } else {
        spec_find_record(records.drop_first(), id)
    }
}

/// Find the committed record of the given ally; the scan succeeds
/// exactly when some record names that ally.
pub fn find_record(records: &Vec<AllyActionRecord>, id: usize) -> (r: Option<AllyActionRecord>)
    ensures
        r == spec_find_record(records@, id),
        r is Some <==> exists|k: int|
            0 <= k < records@.len() && (#[trigger] records@[k]).id_in_team == id,
        match r {
            Option::Some(rec) => exists|k: int|
                0 <= k < records@.len() && #[trigger] records@[k] == rec,
            Option::None => true,
        },
{
    proof {
        assert(records@.skip(0) =~= records@);
    }
    let mut i: usize = 0;
    while i < records.len()
        invariant
            i <= records@.len(),
            forall|k: int| 0 <= k < i ==> (#[trigger] records@[k]).id_in_team != id,
            spec_find_record(records@, id) == spec_find_record(records@.skip(i as int), id),
        decreases records@.len() - i,
    {
        if records[i].id_in_team == id {
            proof {
                assert(records@.skip(i as int)[0] == records@[i as int]);
            }
            return Option::Some(records[i]);
        }
        proof {
            assert(records@.skip(i as int).drop_first() =~= records@.skip(i + 1));
        }
        i = i + 1;
    }
    proof {
        assert(records@.skip(records@.len() as int).len() == 0);
    }
    Option::None
}

/// A freshly built strike, as resolution synthesizes it.
pub open spec fn spec_fresh_bash() -> Bash {
    Bash { time: Timer { remaining_ms: STRIKE_CAST_MS }, cancelled: false }
}

/// The announce phase a queue entry resolves into, carrying the given
/// caster and target.
pub open spec fn spec_announce_state(caster: ActorIdentifier, target: Target) -> SubStateTransition {
    SubStateTransition::NextSubState(
        TurnSubState::Announce(
            Announce {
                time: Timer { remaining_ms: ANNOUNCE_MS },
                announced_action: spec_fresh_bash(),
                caster,
                target,
            },
        ),
    )
}

/// What a popped queue entry resolves into: a fallen actor is skipped;
/// a living ally's committed strike, or a living enemy's synthesized
/// baseline strike against the first ally, opens its announce phase. An
/// ally whose committed action has no effect to run (a guard) is passed
/// over.
pub open spec fn spec_entry_transition(
    characters: Seq<Actor>,
    enemies: Seq<Actor>,
    records: Seq<AllyActionRecord>,
    e: TurnAction,
) -> SubStateTransition {
    match e.team {
        Team::Ally => if characters[e.id_in_team as int].is_ko() {
            SubStateTransition::NextSubState(TurnSubState::NextAction)
        } else {
            match spec_find_record(records, e.id_in_team) {
                Option::Some(rec) => match rec.action_type {
                    ActionType::Bash(target) => spec_announce_state(
                        ActorIdentifier { team: Team::Ally, index: e.id_in_team },
                        target,
                    ),
                    _ => SubStateTransition::NextSubState(TurnSubState::NextAction),
                },
                Option::None => SubStateTransition::NextSubState(TurnSubState::NextAction),
            }
        },
        Team::Enemy => if enemies[e.id_in_team as int].is_ko() {
            SubStateTransition::NextSubState(TurnSubState::NextAction)
        } else {
            spec_announce_state(
                ActorIdentifier { team: Team::Enemy, index: e.id_in_team },
                Target::Single(ActorIdentifier { team: Team::Ally, index: 0 }),
            )
        },
    }
}

/// Everything one frame of turn resolution owes, relating the scene
/// parts before the frame to those after it: an empty queue or a
/// decided battle closes the turn (clearing records and queue and
/// seeding a fresh decision cycle at the first living ally, or the
/// terminal state); otherwise the front entry is popped and resolved;
/// an announce phase waits its delay out; an execute phase runs,
/// cancels, or waits; and every transition onward re-checks whether the
/// battle has been decided.
pub open spec fn spec_unroll_frame(
    u: TurnUnrollState,
    characters_pre: Seq<Actor>,
    enemies_pre: Seq<Actor>,
    records_pre: Seq<AllyActionRecord>,
    queue_pre: Seq<TurnAction>,
    dt_ms: u64,
    characters_post: Seq<Actor>,
    enemies_post: Seq<Actor>,
    records_post: Seq<AllyActionRecord>,
    queue_post: Seq<TurnAction>,
    state_post: MacroBattleStates,
) -> bool {
    let decided_pre = crate::battle::spec_all_ko(enemies_pre) || crate::battle::spec_all_ko(
        characters_pre,
    );
    let end_state_pre = if crate::battle::spec_all_ko(enemies_pre) {
        MacroBattleStates::Win
    } else {
        MacroBattleStates::GameOver
    };
    match u.sub_state {
        TurnSubState::NextAction => {
            &&& characters_post == characters_pre
            &&& enemies_post == enemies_pre
            &&& if queue_pre.len() == 0 || decided_pre {
                &&& records_post.len() == 0
                &&& queue_post.len() == 0
                &&& state_post == if decided_pre {
                    end_state_pre
                } else {
                    MacroBattleStates::CharacterTurnDecision(
                        crate::battle::action_decision::spec_menu_at(
                            first_living_from(characters_pre, 0)->Some_0 as usize,
                        ),
                    )
                }
            } else {
                &&& records_post == records_pre
                &&& queue_post == queue_pre.drop_first()
                &&& state_post == MacroBattleStates::TurnUnroll(
                    TurnUnrollState {
                        sub_state: spec_entry_transition(
                            characters_pre,
                            enemies_pre,
                            records_pre,
                            queue_pre[0],
                        )->NextSubState_0,
                    },
                )
            }
        },
        TurnSubState::Announce(a) => {
            &&& characters_post == characters_pre
            &&& enemies_post == enemies_pre
            &&& records_post == records_pre
            &&& queue_post == queue_pre
            &&& state_post == if a.time.remaining_ms > dt_ms {
                MacroBattleStates::TurnUnroll(
                    TurnUnrollState {
                        sub_state: TurnSubState::Announce(
                            Announce {
                                time: Timer { remaining_ms: (a.time.remaining_ms - dt_ms) as u64 },
                                ..a
                            },
                        ),
                    },
                )
            } else if decided_pre {
                end_state_pre
            } else {
                MacroBattleStates::TurnUnroll(
                    TurnUnrollState {
                        sub_state: TurnSubState::DoIt(
                            DoIt { action: a.announced_action, caster: a.caster, target: a.target },
                        ),
                    },
                )
            }
        },
        TurnSubState::DoIt(d) => {
            &&& records_post == records_pre
            &&& queue_post == queue_pre
            &&& d.action.cancelled ==> {
                &&& characters_post == characters_pre
                &&& enemies_post == enemies_pre
                &&& state_post == if decided_pre {
                    end_state_pre
                } else {
                    MacroBattleStates::TurnUnroll(
                        TurnUnrollState { sub_state: TurnSubState::NextAction },
                    )
                }
            }
            &&& !d.action.cancelled && d.action.time.remaining_ms > dt_ms ==> {
                &&& characters_post == characters_pre
                &&& enemies_post == enemies_pre
                &&& state_post == MacroBattleStates::TurnUnroll(
                    TurnUnrollState {
                        sub_state: TurnSubState::DoIt(
                            DoIt {
                                action: Bash {
                                    time: Timer {
                                        remaining_ms: (d.action.time.remaining_ms - dt_ms) as u64,
                                    },
                                    ..d.action
                                },
                                ..d
                            },
                        ),
                    },
                )
            }
            &&& !d.action.cancelled && d.action.time.remaining_ms <= dt_ms ==> {
                &&& spec_strike_applied(
                    characters_pre,
                    enemies_pre,
                    characters_post,
                    enemies_post,
                    d,
                )
                &&& state_post == if crate::battle::spec_all_ko(enemies_post)
                    || crate::battle::spec_all_ko(characters_post) {
                    if crate::battle::spec_all_ko(enemies_post) {
                        MacroBattleStates::Win
                    } else {
                        MacroBattleStates::GameOver
                    }
                } else {
                    MacroBattleStates::TurnUnroll(
                        TurnUnrollState { sub_state: TurnSubState::NextAction },
                    )
                }
            }
        },
    }
}

impl TurnUnrollState {
    pub fn new() -> (u: TurnUnrollState)
        ensures
            u.sub_state == TurnSubState::NextAction,
    {
        TurnUnrollState { sub_state: TurnSubState::NextAction }
    }

    /// Route a knock-out to the sub-machine: an in-flight action whose
    /// caster just fell is cancelled, so its effect never runs.
    pub fn on_character_ko(&mut self, id: ActorIdentifier)
        ensures
            *final(self) == match old(self).sub_state {
                TurnSubState::NextAction => *old(self),
                TurnSubState::Announce(a) => if a.caster == id {
                    TurnUnrollState {
                        sub_state: TurnSubState::Announce(
                            Announce {
                                announced_action: Bash { cancelled: true, ..a.announced_action },
                                ..a
                            },
                        ),
                    }
                } else {
                    *old(self)
                },
                TurnSubState::DoIt(d) => if d.caster == id {
                    TurnUnrollState {
                        sub_state: TurnSubState::DoIt(
                            DoIt { action: Bash { cancelled: true, ..d.action }, ..d },
                        ),
                    }
                } else {
                    *old(self)
                },
            },
    {
        match &mut self.sub_state {
            TurnSubState::NextAction => {},
            TurnSubState::Announce(a) => {
                if a.caster == id {
                    a.announced_action.cancel();
                }
            },
            TurnSubState::DoIt(d) => {
                if d.caster == id {
                    d.action.cancel();
                }
            },
        }
    }

    /// Resolve an ally's queue entry: skip the fallen, look up the
    /// committed record, and open the announce phase for its strike.
    fn process_ally_action(scene: &BattleScene, action: TurnAction) -> (t: SubStateTransition)
        requires
            scene.wf(),
            action.team is Ally,
            scene.queue_entry_wf(action),
        ensures
            t == spec_entry_transition(
                scene.characters@,
                scene.enemies@,
                scene.allies_actions@,
                action,
            ),
            t matches SubStateTransition::NextSubState(sub) ==> scene.unroll_wf(
                TurnUnrollState { sub_state: sub },
            ),
    {
        let id = action.id_in_team;
        let (ally_hp, _) = scene.characters[id].hp.current_and_max();
        if ally_hp == 0 {
            return SubStateTransition::NextSubState(TurnSubState::NextAction);
        }
        match find_record(&scene.allies_actions, id) {
            Option::Some(rec) => {
                match rec.action_type {
                    ActionType::Bash(target) => SubStateTransition::NextSubState(
                        TurnSubState::Announce(
                            Announce::new(
                                Bash::new(),
                                ActorIdentifier { team: Team::Ally, index: id },
                                target,
                            ),
                        ),
                    ),
                    _ => SubStateTransition::NextSubState(TurnSubState::NextAction),
                }
            },
            Option::None => SubStateTransition::NextSubState(TurnSubState::NextAction),
        }
    }

    /// Close the turn: clear the consumed records and any residual
    /// queue entries, and signal the end of the turn.
    fn end_of_turn(scene: &mut BattleScene) -> (t: SubStateTransition)
        ensures
            t == SubStateTransition::EndOfTurn,
            *final(scene) == (BattleScene {
                allies_actions: final(scene).allies_actions,
                turn_order: final(scene).turn_order,
                ..*old(scene)
            }),
            final(scene).allies_actions@.len() == 0,
            final(scene).turn_order@.len() == 0,
    {
        scene.allies_actions.clear();
        scene.turn_order.clear();
        SubStateTransition::EndOfTurn
    }

    /// Pop the front queue entry and resolve it.
    fn next_action(scene: &mut BattleScene) -> (t: SubStateTransition)
        requires
            old(scene).wf(),
            old(scene).turn_order@.len() > 0,
        ensures
            *final(scene) == (BattleScene { turn_order: final(scene).turn_order, ..*old(scene) }),
            final(scene).turn_order@ == old(scene).turn_order@.drop_first(),
            t == spec_entry_transition(
                old(scene).characters@,
                old(scene).enemies@,
                old(scene).allies_actions@,
                old(scene).turn_order@[0],
            ),
            t matches SubStateTransition::NextSubState(sub) ==> final(scene).unroll_wf(
                TurnUnrollState { sub_state: sub },
            ),
            final(scene).wf(),
    {
        let next_action = scene.turn_order.remove(0);
        proof {
            assert(scene.turn_order@ =~= old(scene).turn_order@.drop_first());
            assert(old(scene).queue_entry_wf(next_action));
            assert forall|i: int|
                0 <= i < scene.turn_order@.len() implies scene.queue_entry_wf(
                #[trigger] scene.turn_order@[i],
            ) by {
                assert(scene.turn_order@[i] == old(scene).turn_order@[i + 1]);
                assert(old(scene).queue_entry_wf(old(scene).turn_order@[i + 1]));
            }
        }
        match next_action.team {
            Team::Ally => TurnUnrollState::process_ally_action(scene, next_action),
            Team::Enemy => {
                let enemy_id = next_action.id_in_team;
                let (enemy_hp, _) = scene.enemies[enemy_id].hp.current_and_max();
                if enemy_hp == 0 {
                    return SubStateTransition::NextSubState(TurnSubState::NextAction);
                }
                SubStateTransition::NextSubState(
                    TurnSubState::Announce(
                        Announce::new(
                            Bash::new(),
                            ActorIdentifier { team: Team::Enemy, index: enemy_id },
                            Target::Single(ActorIdentifier { team: Team::Ally, index: 0 }),
                        ),
                    ),
                )
            },
        }
    }

    /// Run one frame of turn resolution. An empty queue or a decided
    /// battle closes the turn; otherwise the popped entry walks through
    /// its announce and execute phases, and every sub-state transition
    /// re-checks whether the battle has been decided.
    pub fn update(scene: &mut BattleScene, dt_ms: u64)
        requires
            old(scene).wf(),
        ensures
            final(scene).wf(),
            !(old(scene).state matches MacroBattleStates::TurnUnroll(_)) ==> *final(scene) == *old(
                scene,
            ),
            final(scene).characters@.len() == old(scene).characters@.len(),
            final(scene).enemies@.len() == old(scene).enemies@.len(),
            old(scene).state matches MacroBattleStates::TurnUnroll(u) ==> spec_unroll_frame(
                u,
                old(scene).characters@,
                old(scene).enemies@,
                old(scene).allies_actions@,
                old(scene).turn_order@,
                dt_ms,
                final(scene).characters@,
                final(scene).enemies@,
                final(scene).allies_actions@,
                final(scene).turn_order@,
                final(scene).state,
            ),
    {
        let u = match scene.state {
            MacroBattleStates::TurnUnroll(u) => u,
            _ => {
                return ;
            },
        };
        let transition = match u.sub_state {
            TurnSubState::NextAction => {
                if scene.turn_order.len() == 0 || scene.end_of_fight() {
                    TurnUnrollState::end_of_turn(scene)
                } else {
                    TurnUnrollState::next_action(scene)
                }
            },
            TurnSubState::Announce(a) => {
                let mut announce = a;
                let t = announce.update(dt_ms);
                scene.state = MacroBattleStates::TurnUnroll(
                    TurnUnrollState { sub_state: TurnSubState::Announce(announce) },
                );
                t
            },
            TurnSubState::DoIt(d) => {
                let mut do_it = d;
                let caster_stats = match do_it.caster.team {
                    Team::Ally => scene.characters[do_it.caster.index].stats,
                    Team::Enemy => scene.enemies[do_it.caster.index].stats,
                };
                let (target_team, lo): (Team, usize) = match do_it.target {
                    Target::Single(id) => (id.team, id.index),
                    Target::WholeTeam(team) => (team, 0),
                };
                let team_size: usize = match target_team {
                    Team::Ally => scene.characters.len(),
                    Team::Enemy => scene.enemies.len(),
                };
                let hi: usize = match do_it.target {
                    Target::Single(_) => lo + 1,
                    Target::WholeTeam(_) => team_size,
                };
                let t = match target_team {
                    Team::Ally => do_it.action.go(
                        &caster_stats,
                        &mut scene.characters,
                        lo,
                        hi,
                        dt_ms,
                    ),
                    Team::Enemy => do_it.action.go(
                        &caster_stats,
                        &mut scene.enemies,
                        lo,
                        hi,
                        dt_ms,
                    ),
                };
                scene.state = MacroBattleStates::TurnUnroll(
                    TurnUnrollState { sub_state: TurnSubState::DoIt(do_it) },
                );
                t
            },
        };
        match transition {
            SubStateTransition::Stay => {},
            SubStateTransition::NextSubState(sub) => {
                if scene.end_of_fight() {
                    match scene.get_end_state() {
                        Option::Some(end) => {
                            scene.state = end;
                        },
                        Option::None => {
                            proof {
                                assert(false);
                            }
                        },
                    }
                } else {
                    scene.state = MacroBattleStates::TurnUnroll(
                        TurnUnrollState { sub_state: sub },
                    );
                }
            },
            SubStateTransition::EndOfTurn => {
                if scene.end_of_fight() {
                    match scene.get_end_state() {
                        Option::Some(end) => {
                            scene.state = end;
                        },
                        Option::None => {
                            proof {
                                assert(false);
                            }
                        },
                    }
                } else {
                    proof {
                        lemma_first_living_exists(scene.characters@);
                    }
                    match CharacterTurnDecisionState::new_turn(&scene.characters) {
                        Option::Some(decision) => {
                            scene.state = MacroBattleStates::CharacterTurnDecision(decision);
                        },
                        Option::None => {
                            proof {
                                assert(false);
                            }
                        },
                    }
                }
            },
        }
    }
}

/// Whether `after` is `before` with the in-flight strike of `d` landed:
/// every actor of the target range struck exactly once at the caster's
/// live offense, everything else untouched.
pub open spec fn spec_strike_applied(
    characters_pre: Seq<Actor>,
    enemies_pre: Seq<Actor>,
    characters_post: Seq<Actor>,
    enemies_post: Seq<Actor>,
    d: DoIt,
) -> bool {
    let offense = (match d.caster.team {
        Team::Ally => characters_pre[d.caster.index as int],
        Team::Enemy => enemies_pre[d.caster.index as int],
    }).stats.offense.spec_multiplied();
    let target_team = match d.target {
        Target::Single(id) => id.team,
        Target::WholeTeam(team) => team,
    };
    let lo = match d.target {
        Target::Single(id) => id.index as int,
        Target::WholeTeam(_) => 0,
    };
    let hi = match d.target {
        Target::Single(id) => id.index + 1,
        Target::WholeTeam(team) => match team {
            Team::Ally => characters_pre.len() as int,
            Team::Enemy => enemies_pre.len() as int,
        },
    };
    let hit_team_before = match target_team {
        Team::Ally => characters_pre,
        Team::Enemy => enemies_pre,
    };
    let hit_team_after = match target_team {
        Team::Ally => characters_post,
        Team::Enemy => enemies_post,
    };
    &&& match target_team {
        Team::Ally => enemies_post == enemies_pre,
        Team::Enemy => characters_post == characters_pre,
    }
    &&& hit_team_after.len() == hit_team_before.len()
    &&& forall|i: int|
        0 <= i < hit_team_before.len() && !(lo <= i < hi) ==> hit_team_after[i]
            == hit_team_before[i]
    &&& forall|i: int| lo <= i < hi ==> struck(hit_team_before[i], #[trigger] hit_team_after[i], offense, 1)
}

} // verus!
