//! The battle session: the actor data model, the roster, and the
//! top-level state machine that arbitrates between turn decision, turn
//! preparation, turn resolution and the terminal states, while driving
//! the per-frame meter animation and knock-out detection.

pub mod action;
pub mod action_decision;
pub mod stat;
pub mod turn;
pub mod turn_preparation;

use vstd::prelude::*;

use crate::battle::action_decision::{
    AllyActionRecord, Breadcrumbs, CharacterTurnDecisionState, Menu, MENU_ITEM_COUNT,
};
use crate::battle::action::Bash;
use crate::battle::stat::{ActorStats, Stat};
use crate::battle::turn::{Announce, DoIt, TurnSubState, TurnUnrollState};
use crate::battle::turn_preparation::TurnPreparationState;
use crate::meters::{InstantMeter, Meter, RollingMeter};

verus! {

/// The side an actor fights on.
#[derive(Clone, Copy, Debug, PartialEq, Eq, Structural)]
pub enum Team {
    Ally,
    Enemy,
}

/// A stable relational reference into a roster: a team and an index
/// within that team's lineup. Never an owning reference.
#[derive(Clone, Copy, Debug, PartialEq, Eq, Structural)]
pub struct ActorIdentifier {
    pub team: Team,
    pub index: usize,
}

/// The object of an action: one actor, or a whole side.
#[derive(Clone, Copy, Debug, PartialEq, Eq, Structural)]
pub enum Target {
    Single(ActorIdentifier),
    WholeTeam(Team),
}

impl Target {
    /// The team the target points into.
    pub open spec fn spec_get_team(self) -> Team {
        match self {
            Target::Single(id) => id.team,
            Target::WholeTeam(team) => team,
        }
    }

    pub fn get_team(&self) -> (r: Team)
        ensures
            r == self.spec_get_team(),
    {
        match self {
            Target::Single(id) => id.team,
            Target::WholeTeam(team) => *team,
        }
    }

    /// The index of a single-actor target; a whole-team target has none.
    pub fn get_index(&self) -> (r: Option<usize>)
        ensures
            match *self {
                Target::Single(id) => r == Option::Some(id.index),
                Target::WholeTeam(_) => r is None,
            },
    {
        match self {
            Target::Single(id) => Option::Some(id.index),
            Target::WholeTeam(_) => Option::None,
        }
    }
}

/// The kinds of action an ally can commit to for a turn.
#[derive(Clone, Copy, Debug, PartialEq, Eq, Structural)]
pub enum ActionType {
    Bash(Target),
    Psi,
    Item,
    Guard,
}

/// One entry of the turn queue: who acts, and at what speed snapshot the
/// scheduler ranked them.
#[derive(Clone, Copy, Debug, PartialEq, Eq, Structural)]
pub struct TurnAction {
    pub id_in_team: usize,
    pub team: Team,
    pub speed: u16,
}

/// The logical directional and confirm/cancel events the battle core
/// consumes, abstracted away from any concrete input device.
#[derive(Clone, Copy, Debug, PartialEq, Eq, Structural)]
pub enum InputEvent {
    Left,
    Right,
    PageStart,
    PageEnd,
    Confirm,
    Cancel,
}

/// One combatant: a display name, the two resource meters, and the stat
/// bundle. A knocked-out actor stays in the roster with a depleted HP
/// meter.
#[derive(Debug)]
pub struct Actor {
    pub name: String,
    pub hp: Meter,
    pub pp: Meter,
    pub stats: ActorStats,
}

impl Actor {
    pub open spec fn wf(self) -> bool {
        &&& self.hp.wf()
        &&& self.pp.wf()
        &&& self.stats.wf()
    }

    /// An actor is knocked out when its HP meter's visible value is zero.
    pub open spec fn is_ko(self) -> bool {
        self.hp.is_depleted()
    }

    /// Enemies take meter changes instantly.
    pub fn enemy_from_stats(
        name: &str,
        hp: u16,
        max_hp: u16,
        pp: u16,
        max_pp: u16,
        offense: u16,
        defense: u16,
        speed: u16,
        iq: u16,
    ) -> (a: Actor)
        requires
            hp <= max_hp,
            pp <= max_pp,
        ensures
            a.name@ == name@,
            a.hp == Meter::Instant(InstantMeter { current_value: hp, max: max_hp }),
            a.pp == Meter::Instant(InstantMeter { current_value: pp, max: max_pp }),
            a.stats.offense == (Stat { base: offense, modifier: 0 as i16 }),
            a.stats.defense == (Stat { base: defense, modifier: 0 as i16 }),
            a.stats.speed == (Stat { base: speed, modifier: 0 as i16 }),
            a.stats.iq == (Stat { base: iq, modifier: 0 as i16 }),
            a.wf(),
    {
        Actor {
            name: name.to_owned(),
            hp: Meter::Instant(InstantMeter::new(hp, max_hp)),
            pp: Meter::Instant(InstantMeter::new(pp, max_pp)),
            stats: ActorStats {
                offense: Stat::new(offense),
                defense: Stat::new(defense),
                speed: Stat::new(speed),
                iq: Stat::new(iq),
            },
        }
    }

    /// Allies watch their meters roll toward their targets.
    pub fn character_from_stats(
        name: &str,
        hp: u16,
        max_hp: u16,
        pp: u16,
        max_pp: u16,
        offense: u16,
        defense: u16,
        speed: u16,
        iq: u16,
    ) -> (a: Actor)
        requires
            hp <= max_hp,
            pp <= max_pp,
        ensures
            a.name@ == name@,
            a.hp == Meter::Rolling(RollingMeter {
                current_value: hp,
                target_value: hp,
                max: max_hp,
                accumulator: 0,
                rate_multiplier: 1,
            }),
            a.pp == Meter::Rolling(RollingMeter {
                current_value: pp,
                target_value: pp,
                max: max_pp,
                accumulator: 0,
                rate_multiplier: 1,
            }),
            a.stats.offense == (Stat { base: offense, modifier: 0 as i16 }),
            a.stats.defense == (Stat { base: defense, modifier: 0 as i16 }),
            a.stats.speed == (Stat { base: speed, modifier: 0 as i16 }),
            a.stats.iq == (Stat { base: iq, modifier: 0 as i16 }),
            a.wf(),
    {
        Actor {
            name: name.to_owned(),
            hp: Meter::Rolling(RollingMeter::new(hp, max_hp)),
            pp: Meter::Rolling(RollingMeter::new(pp, max_pp)),
            stats: ActorStats {
                offense: Stat::new(offense),
                defense: Stat::new(defense),
                speed: Stat::new(speed),
                iq: Stat::new(iq),
            },
        }
    }

    /// Advance both rolling meters by the elapsed time; instant meters
    /// have no time behavior.
    pub fn update_meters(&mut self, dt_ms: u64)
        requires
            old(self).wf(),
            dt_ms <= 0xffff_ffff_ffff,
        ensures
            final(self).wf(),
            final(self).name == old(self).name,
            final(self).stats == old(self).stats,
            final(self).hp == spec_update_meter(old(self).hp, dt_ms),
            final(self).pp == spec_update_meter(old(self).pp, dt_ms),
    {
        if let Meter::Rolling(meter) = &mut self.hp {
            proof {
                lemma_scaled_time_fits(*meter, dt_ms);
            }
            meter.update(dt_ms);
        }
        if let Meter::Rolling(meter) = &mut self.pp {
            proof {
                lemma_scaled_time_fits(*meter, dt_ms);
            }
            meter.update(dt_ms);
        }
    }
}

/// A modest rate multiplier keeps the scaled frame time within the
/// accumulator's range.
proof fn lemma_scaled_time_fits(m: RollingMeter, dt_ms: u64)
    requires
        m.wf(),
        dt_ms <= 0xffff_ffff_ffff,
    ensures
        m.accumulator + dt_ms * m.rate_multiplier <= u64::MAX,
{
    assert(dt_ms * m.rate_multiplier <= 0xffff_ffff_ffff * 0x10000) by (nonlinear_arith)
        requires
            m.rate_multiplier <= 0x10000,
            dt_ms <= 0xffff_ffff_ffff,
    ;
}

/// The meter after `dt_ms` milliseconds: instant meters are untouched,
/// rolling meters advance.
pub open spec fn spec_update_meter(m: Meter, dt_ms: u64) -> Meter {
    match m {
        Meter::Instant(_) => m,
        Meter::Rolling(r) => Meter::Rolling(r.spec_update(dt_ms)),
    }
}

/// The actor after `dt_ms` milliseconds: both meters advanced, all else
/// untouched.
pub open spec fn spec_ticked_actor(a: Actor, dt_ms: u64) -> Actor {
    Actor {
        name: a.name,
        hp: spec_update_meter(a.hp, dt_ms),
        pp: spec_update_meter(a.pp, dt_ms),
        stats: a.stats,
    }
}

/// A whole lineup after `dt_ms` milliseconds: every actor ticked.
pub open spec fn spec_ticked_roster(s: Seq<Actor>, dt_ms: u64) -> Seq<Actor> {
    s.map_values(|a: Actor| spec_ticked_actor(a, dt_ms))
}

/// Whether this frame's meter movement drops the actor's visible HP to
/// zero: the knock-out signal fires exactly on that crossing.
pub open spec fn freshly_fallen(a: Actor, dt_ms: u64) -> bool {
    a.hp.spec_current() > 0 && spec_update_meter(a.hp, dt_ms).spec_current() == 0
}

/// A bundle of four stats fresh from the fixed table: each at its base
/// value with no modifier.
pub open spec fn spec_fresh_stats(offense: u16, defense: u16, speed: u16, iq: u16) -> ActorStats {
    ActorStats {
        offense: Stat { base: offense, modifier: 0 as i16 },
        defense: Stat { base: defense, modifier: 0 as i16 },
        speed: Stat { base: speed, modifier: 0 as i16 },
        iq: Stat { base: iq, modifier: 0 as i16 },
    }
}

/// Whether the actor is an ally fresh from the fixed stat table: the
/// given name, full rolling meters at the given capacities, and
/// unmodified stats.
pub open spec fn spec_fresh_character(
    a: Actor,
    name: Seq<char>,
    hp: u16,
    pp: u16,
    offense: u16,
    defense: u16,
    speed: u16,
    iq: u16,
) -> bool {
    &&& a.name@ == name
    &&& a.hp == Meter::Rolling(
        RollingMeter {
            current_value: hp,
            target_value: hp,
            max: hp,
            accumulator: 0,
            rate_multiplier: 1,
        },
    )
    &&& a.pp == Meter::Rolling(
        RollingMeter {
            current_value: pp,
            target_value: pp,
            max: pp,
            accumulator: 0,
            rate_multiplier: 1,
        },
    )
    &&& a.stats == spec_fresh_stats(offense, defense, speed, iq)
}

/// Whether the actor is an enemy fresh from the fixed stat table: the
/// given name, full instant meters at the given capacities, and
/// unmodified stats.
pub open spec fn spec_fresh_enemy(
    a: Actor,
    name: Seq<char>,
    hp: u16,
    pp: u16,
    offense: u16,
    defense: u16,
    speed: u16,
    iq: u16,
) -> bool {
    &&& a.name@ == name
    &&& a.hp == Meter::Instant(InstantMeter { current_value: hp, max: hp })
    &&& a.pp == Meter::Instant(InstantMeter { current_value: pp, max: pp })
    &&& a.stats == spec_fresh_stats(offense, defense, speed, iq)
}

/// The top-level battle states the session arbitrates between.
#[derive(Clone, Copy, Debug, PartialEq, Eq, Structural)]
pub enum MacroBattleStates {
    CharacterTurnDecision(CharacterTurnDecisionState),
    TurnPreparation(TurnPreparationState),
    TurnUnroll(TurnUnrollState),
    Win,
    GameOver,
}

/// A whole lineup is knocked out when every actor in it is.
pub open spec fn spec_all_ko(s: Seq<Actor>) -> bool {
    forall|i: int| 0 <= i < s.len() ==> (#[trigger] s[i]).is_ko()
}

/// The resolution state after this frame's knock-outs are routed into
/// it: an in-flight action whose ally caster just fell is cancelled.
pub open spec fn spec_unroll_after_ko(u: TurnUnrollState, characters: Seq<Actor>, dt_ms: u64) -> TurnUnrollState {
    match u.sub_state {
        TurnSubState::NextAction => u,
        TurnSubState::Announce(a) => if a.caster.team is Ally && a.caster.index < characters.len()
            && freshly_fallen(characters[a.caster.index as int], dt_ms) {
            TurnUnrollState {
                sub_state: TurnSubState::Announce(
                    Announce {
                        announced_action: Bash { cancelled: true, ..a.announced_action },
                        ..a
                    },
                ),
            }
        } else {
            u
        },
        TurnSubState::DoIt(d) => if d.caster.team is Ally && d.caster.index < characters.len()
            && freshly_fallen(characters[d.caster.index as int], dt_ms) {
            TurnUnrollState {
                sub_state: TurnSubState::DoIt(DoIt { action: Bash { cancelled: true, ..d.action }, ..d }),
            }
        } else {
            u
        },
    }
}

/// The macro state after this frame's knock-outs are routed into it:
/// the deciding ally's fall raises the side-band skip signal, an
/// in-flight caster's fall cancels its action, and the other states are
/// untouched.
pub open spec fn spec_state_after_ko_signal(
    state: MacroBattleStates,
    characters: Seq<Actor>,
    dt_ms: u64,
) -> MacroBattleStates {
    match state {
        MacroBattleStates::CharacterTurnDecision(s) => {
            let cur = s.spec_shared().current_character;
            if cur < characters.len() && freshly_fallen(characters[cur as int], dt_ms) {
                MacroBattleStates::CharacterTurnDecision(s.spec_with_ko_signal())
            } else {
                state
            }
        },
        MacroBattleStates::TurnUnroll(u) => MacroBattleStates::TurnUnroll(
            spec_unroll_after_ko(u, characters, dt_ms),
        ),
        _ => state,
    }
}

/// The battle session: the two rosters, the per-turn bookkeeping, and
/// whichever macro state is active.
#[derive(Debug)]
pub struct BattleScene {
    pub characters: Vec<Actor>,
    pub enemies: Vec<Actor>,
    pub allies_actions: Vec<AllyActionRecord>,
    pub turn_order: Vec<TurnAction>,
    pub state: MacroBattleStates,
}

impl BattleScene {
    /// How many actors the given team's lineup holds.
    pub open spec fn team_len(self, team: Team) -> nat {
        match team {
            Team::Ally => self.characters@.len(),
            Team::Enemy => self.enemies@.len(),
        }
    }

    /// Both lineups are non-empty and every actor in them is well
    /// formed.
    pub open spec fn rosters_wf(self) -> bool {
        &&& self.characters@.len() >= 1
        &&& self.enemies@.len() >= 1
        &&& forall|i: int| 0 <= i < self.characters@.len() ==> (#[trigger] self.characters@[i]).wf()
        &&& forall|i: int| 0 <= i < self.enemies@.len() ==> (#[trigger] self.enemies@[i]).wf()
    }

    /// A target points inside the roster.
    pub open spec fn target_wf(self, t: Target) -> bool {
        match t {
            Target::Single(id) => id.index < self.team_len(id.team),
            Target::WholeTeam(_) => true,
        }
    }

    /// A committed record names a real ally and carries an action the
    /// resolution machine knows how to run, aimed inside the roster.
    pub open spec fn record_wf(self, r: AllyActionRecord) -> bool {
        &&& r.id_in_team < self.characters@.len()
        &&& match r.action_type {
            ActionType::Bash(t) => self.target_wf(t),
            ActionType::Guard => true,
            _ => false,
        }
    }

    /// Every committed record is well formed, and record order follows
    /// ally order strictly, so each decided ally holds exactly one
    /// record.
    pub open spec fn records_wf(self) -> bool {
        &&& forall|i: int|
            0 <= i < self.allies_actions@.len() ==> self.record_wf(
                #[trigger] self.allies_actions@[i],
            )
        &&& forall|i: int, j: int|
            0 <= i < j < self.allies_actions@.len()
                ==> #[trigger] self.allies_actions@[i].id_in_team
                < #[trigger] self.allies_actions@[j].id_in_team
    }

    /// Every queued entry points inside its lineup, and every queued
    /// ally still has its committed record to look up.
    /// One queue entry points inside its lineup, and a queued ally still
    /// has a committed record to look up.
    pub open spec fn queue_entry_wf(self, e: TurnAction) -> bool {
        &&& e.id_in_team < self.team_len(e.team)
        &&& e.team is Ally ==> exists|k: int|
            0 <= k < self.allies_actions@.len() && (#[trigger] self.allies_actions@[k]).id_in_team
                == e.id_in_team
    }

    pub open spec fn queue_wf(self) -> bool {
        forall|i: int|
            0 <= i < self.turn_order@.len() ==> self.queue_entry_wf(#[trigger] self.turn_order@[i])
    }

    /// A single-actor selection in a decision state aims at a live index
    /// of the enemy lineup.
    pub open spec fn selection_wf(self, t: Target) -> bool {
        match t {
            Target::Single(id) => id.team is Enemy && id.index < self.enemies@.len(),
            Target::WholeTeam(_) => true,
        }
    }

    /// A decision state speaks of a real ally, keeps its cursor on the
    /// menu, aims inside the enemy lineup, and stands after every ally
    /// it has already committed a record for. While allies decide, the
    /// previous turn's queue has been consumed or cleared.
    pub open spec fn decision_wf(self, s: CharacterTurnDecisionState) -> bool {
        &&& self.turn_order@.len() == 0
        &&& s.spec_shared().current_character < self.characters@.len()
        &&& s.spec_shared().current_item < MENU_ITEM_COUNT
        &&& match s {
            CharacterTurnDecisionState::Menu(_) => true,
            CharacterTurnDecisionState::Bash(b) => self.selection_wf(b.selected),
            CharacterTurnDecisionState::SpecialMove(m) => self.selection_wf(m.selected),
        }
        &&& forall|i: int|
            0 <= i < self.allies_actions@.len()
                ==> (#[trigger] self.allies_actions@[i]).id_in_team
                < s.spec_shared().current_character
    }

    /// A resolution state in flight names a real caster and a target
    /// inside the roster.
    pub open spec fn unroll_wf(self, u: TurnUnrollState) -> bool {
        match u.sub_state {
            TurnSubState::NextAction => true,
            TurnSubState::Announce(a) => a.caster.index < self.team_len(a.caster.team)
                && self.target_wf(a.target),
            TurnSubState::DoIt(d) => d.caster.index < self.team_len(d.caster.team)
                && self.target_wf(d.target),
        }
    }

    /// The session-wide invariant: rosters, records and queue are well
    /// formed, and whichever state is active speaks only of what the
    /// rosters hold.
    pub open spec fn wf(self) -> bool {
        &&& self.rosters_wf()
        &&& self.records_wf()
        &&& self.queue_wf()
        &&& match self.state {
            MacroBattleStates::CharacterTurnDecision(s) => self.decision_wf(s),
            MacroBattleStates::TurnPreparation(_) => true,
            MacroBattleStates::TurnUnroll(u) => self.unroll_wf(u),
            MacroBattleStates::Win => true,
            MacroBattleStates::GameOver => true,
        }
    }

    /// The battle is decided once either lineup is fully depleted.
    pub open spec fn spec_end_of_fight(self) -> bool {
        spec_all_ko(self.enemies@) || spec_all_ko(self.characters@)
    }

    /// The terminal state a decided battle resolves to. Enemy depletion
    /// is checked first: were both lineups to deplete in the same tick,
    /// the battle counts as won.
    pub open spec fn spec_end_state(self) -> MacroBattleStates {
        if spec_all_ko(self.enemies@) {
            MacroBattleStates::Win
        } else {
            MacroBattleStates::GameOver
        }
    }

    /// A fixed demonstration encounter: four allies on rolling meters
    /// against two identical robots on instant meters.
    pub fn dummy() -> (scene: BattleScene)
        ensures
            scene.wf(),
            scene.characters@.len() == 4,
            scene.enemies@.len() == 2,
            scene.allies_actions@.len() == 0,
            scene.turn_order@.len() == 0,
            scene.state == MacroBattleStates::CharacterTurnDecision(
                CharacterTurnDecisionState::Menu(
                    Menu {
                        shared: Breadcrumbs {
                            current_character: 0,
                            current_item: 0,
                            ko_signal: false,
                        },
                    },
                ),
            ),
            spec_fresh_character(scene.characters@[0], "One"@, 98, 46, 45, 22, 16, 10),
            spec_fresh_character(scene.characters@[1], "Two"@, 115, 0, 35, 27, 12, 21),
            spec_fresh_character(scene.characters@[2], "Three"@, 82, 73, 28, 29, 20, 16),
            spec_fresh_character(scene.characters@[3], "Four"@, 67, 0, 32, 20, 9, 23),
            spec_fresh_enemy(scene.enemies@[0], "Robot"@, 53, 0, 35, 10, 17, 8),
            spec_fresh_enemy(scene.enemies@[1], "Robot"@, 53, 0, 35, 10, 17, 8),
            forall|i: int|
                0 <= i < 4 ==> !(#[trigger] scene.characters@[i]).is_ko(),
            forall|i: int| 0 <= i < 2 ==> !(#[trigger] scene.enemies@[i]).is_ko(),
    {
        let mut characters: Vec<Actor> = Vec::new();
        characters.push(Actor::character_from_stats("One", 98, 98, 46, 46, 45, 22, 16, 10));
        characters.push(Actor::character_from_stats("Two", 115, 115, 0, 0, 35, 27, 12, 21));
        characters.push(Actor::character_from_stats("Three", 82, 82, 73, 73, 28, 29, 20, 16));
        characters.push(Actor::character_from_stats("Four", 67, 67, 0, 0, 32, 20, 9, 23));
        let mut enemies: Vec<Actor> = Vec::new();
        enemies.push(Actor::enemy_from_stats("Robot", 53, 53, 0, 0, 35, 10, 17, 8));
        enemies.push(Actor::enemy_from_stats("Robot", 53, 53, 0, 0, 35, 10, 17, 8));
        BattleScene {
            characters,
            enemies,
            allies_actions: Vec::new(),
            turn_order: Vec::new(),
            state: MacroBattleStates::CharacterTurnDecision(
                CharacterTurnDecisionState::Menu(
                    Menu {
                        shared: Breadcrumbs {
                            current_character: 0,
                            current_item: 0,
                            ko_signal: false,
                        },
                    },
                ),
            ),
        }
    }

    /// Advance every rolling meter by the elapsed time and raise the
    /// knock-out signal into the active state when the actor it is
    /// watching — the deciding ally, or the caster of an in-flight
    /// action — crosses to zero. A decided battle freezes its meters.
    pub fn tick_meters(&mut self, dt_ms: u64)
        requires
            old(self).wf(),
            dt_ms <= 0xffff_ffff_ffff,
        ensures
            final(self).wf(),
            old(self).spec_end_of_fight() ==> *final(self) == *old(self),
            !old(self).spec_end_of_fight() ==> {
                &&& final(self).allies_actions == old(self).allies_actions
                &&& final(self).turn_order == old(self).turn_order
                &&& final(self).characters@ == spec_ticked_roster(old(self).characters@, dt_ms)
                &&& final(self).enemies@ == spec_ticked_roster(old(self).enemies@, dt_ms)
                &&& final(self).state == spec_state_after_ko_signal(
                    old(self).state,
                    old(self).characters@,
                    dt_ms,
                )
            },
    {
        if self.end_of_fight() {
            return ;
        }
        let watched: Option<usize> = match self.state {
            MacroBattleStates::CharacterTurnDecision(s) => Option::Some(
                s.current_shared().current_character,
            ),
            MacroBattleStates::TurnUnroll(u) => match u.sub_state {
                TurnSubState::Announce(a) => if matches!(a.caster.team, Team::Ally) {
                    Option::Some(a.caster.index)
                } else {
                    Option::None
                },
                TurnSubState::DoIt(d) => if matches!(d.caster.team, Team::Ally) {
                    Option::Some(d.caster.index)
                } else {
                    Option::None
                },
                TurnSubState::NextAction => Option::None,
            },
            _ => Option::None,
        };
        let previous_hp: u16 = match watched {
            Option::Some(w) => self.characters[w].hp.current_and_max().0,
            Option::None => 0,
        };

        let mut i: usize = 0;
        while i < self.enemies.len()
            invariant
                i <= self.enemies@.len(),
                dt_ms <= 0xffff_ffff_ffff,
                *self == (BattleScene { enemies: self.enemies, ..*old(self) }),
                self.enemies@.len() == old(self).enemies@.len(),
                forall|k: int|
                    0 <= k < i ==> #[trigger] self.enemies@[k] == spec_ticked_actor(
                        old(self).enemies@[k],
                        dt_ms,
                    ),
                forall|k: int| i <= k < self.enemies@.len() ==> #[trigger] self.enemies@[k] == old(
                    self,
                ).enemies@[k],
                forall|k: int|
                    0 <= k < self.enemies@.len() ==> (#[trigger] self.enemies@[k]).wf(),
            decreases self.enemies@.len() - i,
        {
            self.enemies[i].update_meters(dt_ms);
            i = i + 1;
        }

        let mut i: usize = 0;
        while i < self.characters.len()
            invariant
                i <= self.characters@.len(),
                dt_ms <= 0xffff_ffff_ffff,
                *self == (BattleScene {
                    characters: self.characters,
                    enemies: self.enemies,
                    ..*old(self)
                }),
                self.enemies@.len() == old(self).enemies@.len(),
                forall|k: int|
                    0 <= k < self.enemies@.len() ==> #[trigger] self.enemies@[k]
                        == spec_ticked_actor(old(self).enemies@[k], dt_ms),
                self.characters@.len() == old(self).characters@.len(),
                forall|k: int|
                    0 <= k < i ==> #[trigger] self.characters@[k] == spec_ticked_actor(
                        old(self).characters@[k],
                        dt_ms,
                    ),
                forall|k: int|
                    i <= k < self.characters@.len() ==> #[trigger] self.characters@[k] == old(
                        self,
                    ).characters@[k],
                forall|k: int|
                    0 <= k < self.characters@.len() ==> (#[trigger] self.characters@[k]).wf(),
            decreases self.characters@.len() - i,
        {
            self.characters[i].update_meters(dt_ms);
            i = i + 1;
        }

        if let Option::Some(w) = watched {
            let (now_hp, _) = self.characters[w].hp.current_and_max();
            if previous_hp > 0 && now_hp == 0 {
                match &mut self.state {
                    MacroBattleStates::CharacterTurnDecision(decision_state) => {
                        decision_state.on_character_ko(
                            ActorIdentifier { team: Team::Ally, index: w },
                        );
                    },
                    MacroBattleStates::TurnUnroll(unroll_state) => {
                        unroll_state.on_character_ko(
                            ActorIdentifier { team: Team::Ally, index: w },
                        );
                    },
                    _ => {},
                }
            }
        }
        proof {
            assert(self.characters@ =~= spec_ticked_roster(old(self).characters@, dt_ms));
            assert(self.enemies@ =~= spec_ticked_roster(old(self).enemies@, dt_ms));
        }
    }

    /// Run one frame of the battle: advance the meters and propagate
    /// knock-outs, then dispatch at most one step of whichever macro
    /// state is active. A decided battle in a terminal state is inert.
    pub fn update(&mut self, dt_ms: u64, event: Option<InputEvent>)
        requires
            old(self).wf(),
            dt_ms <= 0xffff_ffff_ffff,
        ensures
            final(self).wf(),
            final(self).characters@.len() == old(self).characters@.len(),
            final(self).enemies@.len() == old(self).enemies@.len(),
            old(self).spec_end_of_fight() && !(old(self).state
                matches MacroBattleStates::TurnUnroll(_)) ==> final(self).characters == old(
                self,
            ).characters && final(self).enemies == old(self).enemies,
            old(self).spec_end_of_fight() && (old(self).state matches MacroBattleStates::Win || old(
                self,
            ).state matches MacroBattleStates::GameOver) ==> *final(self) == *old(self),
            // While allies decide or the scheduler runs, the frame's only
            // effect on the rosters is the meter animation.
            !old(self).spec_end_of_fight() && !(old(self).state
                matches MacroBattleStates::TurnUnroll(_)) ==> {
                &&& forall|i: int|
                    0 <= i < old(self).characters@.len() ==> #[trigger] final(self).characters@[i]
                        == spec_ticked_actor(old(self).characters@[i], dt_ms)
                &&& forall|i: int|
                    0 <= i < old(self).enemies@.len() ==> #[trigger] final(self).enemies@[i]
                        == spec_ticked_actor(old(self).enemies@[i], dt_ms)
            },
            // The scheduler's frame: the committed records and the live
            // enemies become the ranked turn queue, and resolution begins.
            old(self).state matches MacroBattleStates::TurnPreparation(_) ==> {
                &&& final(self).allies_actions == old(self).allies_actions
                &&& final(self).turn_order@ == crate::battle::turn_preparation::spec_schedule(
                    old(self).allies_actions@,
                    final(self).enemies@,
                )
                &&& final(self).state == MacroBattleStates::TurnUnroll(
                    TurnUnrollState { sub_state: TurnSubState::NextAction },
                )
            },
            // A decision frame is the decision sub-machine's step, taken
            // on the ticked rosters after this frame's knock-outs are
            // routed into the active state.
            old(self).state matches MacroBattleStates::CharacterTurnDecision(_) ==> {
                let decided = old(self).spec_end_of_fight();
                let routed = if decided {
                    old(self).state
                } else {
                    spec_state_after_ko_signal(old(self).state, old(self).characters@, dt_ms)
                };
                let chars_mid = if decided {
                    old(self).characters@
                } else {
                    spec_ticked_roster(old(self).characters@, dt_ms)
                };
                let enemies_mid = if decided {
                    old(self).enemies@
                } else {
                    spec_ticked_roster(old(self).enemies@, dt_ms)
                };
                &&& final(self).turn_order == old(self).turn_order
                &&& crate::battle::action_decision::spec_decision_frame(
                    routed->CharacterTurnDecision_0,
                    chars_mid,
                    enemies_mid,
                    old(self).allies_actions@,
                    event,
                    final(self).allies_actions@,
                    final(self).state,
                )
            },
            // A resolution frame is the resolution sub-machine's step,
            // taken likewise on the ticked rosters with this frame's
            // knock-outs routed (an in-flight caster's fall cancels its
            // action); a decided battle's meters stay frozen and only the
            // frame's own resolution step touches the scene.
            old(self).state matches MacroBattleStates::TurnUnroll(u) ==> {
                let decided = old(self).spec_end_of_fight();
                let u_mid = if decided {
                    u
                } else {
                    spec_unroll_after_ko(u, old(self).characters@, dt_ms)
                };
                let chars_mid = if decided {
                    old(self).characters@
                } else {
                    spec_ticked_roster(old(self).characters@, dt_ms)
                };
                let enemies_mid = if decided {
                    old(self).enemies@
                } else {
                    spec_ticked_roster(old(self).enemies@, dt_ms)
                };
                crate::battle::turn::spec_unroll_frame(
                    u_mid,
                    chars_mid,
                    enemies_mid,
                    old(self).allies_actions@,
                    old(self).turn_order@,
                    dt_ms,
                    final(self).characters@,
                    final(self).enemies@,
                    final(self).allies_actions@,
                    final(self).turn_order@,
                    final(self).state,
                )
            },
            // Knock-out skip, at session level: a frame in which the
            // deciding ally already carries the skip signal, or falls
            // during this very frame's meter movement, commits no record.
            !old(self).spec_end_of_fight() && (old(self).state
                matches MacroBattleStates::CharacterTurnDecision(s) && (s.spec_shared().ko_signal
                || freshly_fallen(
                old(self).characters@[s.spec_shared().current_character as int],
                dt_ms,
            ))) ==> final(self).allies_actions@ == old(self).allies_actions@,
    {
        self.tick_meters(dt_ms);
        match self.state {
            MacroBattleStates::CharacterTurnDecision(routed) => {
                proof {
                    if routed.spec_shared().ko_signal {
                        crate::battle::action_decision::lemma_ko_yields_skip(
                            routed,
                            self.characters@,
                            self.enemies@,
                            event,
                        );
                    }
                }
                CharacterTurnDecisionState::update(self, event);
            },
            MacroBattleStates::TurnPreparation(_) => {
                TurnPreparationState::update(self);
            },
            MacroBattleStates::TurnUnroll(_) => {
                TurnUnrollState::update(self, dt_ms);
            },
            _ => {},
        }
    }

    /// Whether every actor of the given lineup is knocked out.
    pub fn all_ko(arr: &Vec<Actor>) -> (r: bool)
        ensures
            r == spec_all_ko(arr@),
    {
        let mut i: usize = 0;
        while i < arr.len()
            invariant
                i <= arr@.len(),
                forall|j: int| 0 <= j < i ==> (#[trigger] arr@[j]).is_ko(),
            decreases arr@.len() - i,
        {
            let (hp, _) = arr[i].hp.current_and_max();
            if hp > 0 {
                return false;
            }
            i = i + 1;
        }
        true
    }

    pub fn end_of_fight(&self) -> (r: bool)
        ensures
            r == self.spec_end_of_fight(),
    {
        BattleScene::all_ko(&self.enemies) || BattleScene::all_ko(&self.characters)
    }

    /// The terminal state owed once the battle is decided: a win when
    /// the enemies are depleted (checked first, so a simultaneous
    /// depletion counts as a win), a game over when the allies are.
    pub fn get_end_state(&self) -> (r: Option<MacroBattleStates>)
        ensures
            r == if self.spec_end_of_fight() {
                Option::Some(self.spec_end_state())
            } else {
                Option::<MacroBattleStates>::None
            },
    {
        if BattleScene::all_ko(&self.enemies) {
            return Option::Some(MacroBattleStates::Win);
        } else if BattleScene::all_ko(&self.characters) {
            return Option::Some(MacroBattleStates::GameOver);
        }
        Option::None
    }
}

} // verus!
