//! The per-ally turn-decision sub-machine: a menu, then target
//! selection, producing one committed action record per living ally,
//! with a side-band knock-out signal that can interrupt any state.

use vstd::prelude::*;

use crate::battle::turn_preparation::TurnPreparationState;
use crate::battle::{
    ActionType, Actor, ActorIdentifier, BattleScene, InputEvent, MacroBattleStates, Target, Team,
};

verus! {

/// The number of entries on the action menu.
pub const MENU_ITEM_COUNT: usize = 5;

/// One ally's committed choice for the coming turn. The speed is a
/// snapshot taken at decision time and is never re-read later.
#[derive(Clone, Copy, Debug, PartialEq, Eq, Structural)]
pub struct AllyActionRecord {
    pub id_in_team: usize,
    pub registered_speed: u16,
    pub action_type: ActionType,
}

/// The state every decision sub-state carries: whose turn is being
/// decided, where the menu cursor sits, and whether the side-band
/// knock-out signal has fired for that ally.
#[derive(Clone, Copy, Debug, PartialEq, Eq, Structural)]
pub struct Breadcrumbs {
    pub current_item: usize,
    pub current_character: usize,
    pub ko_signal: bool,
}

/// What one frame of a decision sub-state asks of the owning session.
#[derive(Clone, Copy, Debug, PartialEq, Eq, Structural)]
pub enum Transition {
    /// Keep the current sub-state for another frame.
    Stay,
    /// The acting ally fell; advance past it without a committed action.
    Skip(usize),
    /// The acting ally committed an action record.
    Validate(AllyActionRecord),
    /// Move to another decision sub-state.
    SwitchTo(CharacterTurnDecisionState),
}

/// Whether an actor may be aimed at: the fallen are skipped unless the
/// move explicitly targets them.
pub open spec fn targetable(a: Actor, aim_ko: bool) -> bool {
    aim_ko || !a.is_ko()
}

/// The largest index below `end` holding a targetable actor.
pub open spec fn last_targetable_before(s: Seq<Actor>, end: int, aim_ko: bool) -> Option<int>
    decreases end,
{
    if end <= 0 || end > s.len() {
        Option::None
    } else if targetable(s[end - 1], aim_ko) {
        Option::Some(end - 1)
    } else {
        last_targetable_before(s, end - 1, aim_ko)
    }
}

/// The smallest index at or above `start` holding a targetable actor.
pub open spec fn first_targetable_from(s: Seq<Actor>, start: int, aim_ko: bool) -> Option<int>
    decreases s.len() - start,
{
    if start < 0 || start >= s.len() {
        Option::None
    } else if targetable(s[start], aim_ko) {
        Option::Some(start)
    } else {
        first_targetable_from(s, start + 1, aim_ko)
    }
}

/// The smallest index at or above `start` holding a living actor.
pub open spec fn first_living_from(s: Seq<Actor>, start: int) -> Option<int> {
    first_targetable_from(s, start, false)
}

/// A fresh menu state for the given ally, as every advance of the
/// decision flow seeds it.
pub open spec fn spec_menu_at(i: usize) -> CharacterTurnDecisionState {
    CharacterTurnDecisionState::Menu(
        Menu {
            shared: Breadcrumbs { current_character: i, current_item: 0, ko_signal: false },
        },
    )
}

/// Wherever some actor at or past `start` is targetable, the forward
/// scan finds one.
pub proof fn lemma_first_targetable_exists(s: Seq<Actor>, start: int, aim_ko: bool)
    requires
        0 <= start <= s.len(),
        exists|i: int| start <= i < s.len() && targetable(#[trigger] s[i], aim_ko),
    ensures
        first_targetable_from(s, start, aim_ko) is Some,
    decreases s.len() - start,
{
    if !targetable(s[start], aim_ko) {
        let w = choose|i: int| start <= i < s.len() && targetable(#[trigger] s[i], aim_ko);
        assert(start + 1 <= w < s.len() && targetable(s[w], aim_ko));
        lemma_first_targetable_exists(s, start + 1, aim_ko);
    }
}

/// Wherever some ally still stands, the scan for the first living ally
/// succeeds.
pub proof fn lemma_first_living_exists(s: Seq<Actor>)
    requires
        !crate::battle::spec_all_ko(s),
    ensures
        first_living_from(s, 0) is Some,
{
    let w = choose|i: int| 0 <= i < s.len() && !(#[trigger] s[i]).is_ko();
    assert(targetable(s[w], false));
    lemma_first_targetable_exists(s, 0, false);
}

/// A successful backward scan lands strictly below `end`, inside the
/// lineup.
pub proof fn lemma_last_targetable_bound(s: Seq<Actor>, end: int, aim_ko: bool)
    ensures
        last_targetable_before(s, end, aim_ko) matches Option::Some(j) ==> 0 <= j < end && j
            < s.len(),
    decreases end,
{
    if !(end <= 0 || end > s.len()) && targetable(s[end - 1], aim_ko) {
    } else if !(end <= 0 || end > s.len()) {
        lemma_last_targetable_bound(s, end - 1, aim_ko);
    }
}

/// A successful forward scan lands at or past `start`, inside the
/// lineup.
pub proof fn lemma_first_targetable_bound(s: Seq<Actor>, start: int, aim_ko: bool)
    ensures
        first_targetable_from(s, start, aim_ko) matches Option::Some(j) ==> start <= j < s.len(),
    decreases s.len() - start,
{
    if !(start < 0 || start >= s.len()) && !targetable(s[start], aim_ko) {
        lemma_first_targetable_bound(s, start + 1, aim_ko);
    }
}

pub fn is_targetable(a: &Actor, aim_ko: bool) -> (r: bool)
    ensures
        r == targetable(*a, aim_ko),
{
    let (hp, _) = a.hp.current_and_max();
    hp > 0 || aim_ko
}

/// Scan backward from `end` for the nearest targetable actor.
pub fn find_last_targetable_before(actors: &Vec<Actor>, end: usize, aim_ko: bool) -> (r: Option<usize>)
    requires
        end <= actors.len(),
    ensures
        match r {
            Option::Some(j) => last_targetable_before(actors@, end as int, aim_ko) == Option::Some(
                j as int,
            ) && j < end,
            Option::None => last_targetable_before(actors@, end as int, aim_ko) is None,
        },
{
    let mut i: usize = end;
    while i > 0
        invariant
            i <= end <= actors.len(),
            last_targetable_before(actors@, end as int, aim_ko) == last_targetable_before(
                actors@,
                i as int,
                aim_ko,
            ),
        decreases i,
    {
        if is_targetable(&actors[i - 1], aim_ko) {
            return Option::Some(i - 1);
        }
        i = i - 1;
    }
    Option::None
}

/// Scan forward from `start` for the nearest targetable actor.
pub fn find_first_targetable_from(actors: &Vec<Actor>, start: usize, aim_ko: bool) -> (r: Option<usize>)
    ensures
        match r {
            Option::Some(j) => first_targetable_from(actors@, start as int, aim_ko)
                == Option::Some(j as int) && start <= j < actors@.len(),
            Option::None => first_targetable_from(actors@, start as int, aim_ko) is None,
        },
{
    let mut i: usize = start;
    while i < actors.len()
        invariant
            start <= i,
            first_targetable_from(actors@, start as int, aim_ko) == first_targetable_from(
                actors@,
                i as int,
                aim_ko,
            ),
        decreases actors@.len() - i,
    {
        if is_targetable(&actors[i], aim_ko) {
            return Option::Some(i);
        }
        i = i + 1;
    }
    Option::None
}

/// Where a backward cycle lands: the nearest targetable candidate below
/// the current one, else the nearest above it, else the selection is
/// unchanged. A whole-team target never cycles.
pub open spec fn spec_cycle_previous(current: Target, aim_ko: bool, targets: Seq<Actor>) -> Target {
    match current {
        Target::WholeTeam(_) => current,
        Target::Single(id) => match last_targetable_before(targets, id.index as int, aim_ko) {
            Option::Some(j) => Target::Single(ActorIdentifier { team: id.team, index: j as usize }),
            Option::None => match first_targetable_from(targets, id.index + 1, aim_ko) {
                Option::Some(j) => Target::Single(
                    ActorIdentifier { team: id.team, index: j as usize },
                ),
                Option::None => current,
            },
        },
    }
}

/// Where a forward cycle lands: the first targetable candidate from the
/// front of the lineup below the current one, else the nearest above it,
/// else the selection is unchanged.
pub open spec fn spec_cycle_next(current: Target, aim_ko: bool, targets: Seq<Actor>) -> Target {
    match current {
        Target::WholeTeam(_) => current,
        Target::Single(id) => match first_targetable_from(targets, 0, aim_ko) {
            Option::Some(j) => if j < id.index {
                Target::Single(ActorIdentifier { team: id.team, index: j as usize })
            } else {
                match first_targetable_from(targets, id.index + 1, aim_ko) {
                    Option::Some(k) => Target::Single(
                        ActorIdentifier { team: id.team, index: k as usize },
                    ),
                    Option::None => current,
                }
            },
            Option::None => current,
        },
    }
}

/// Cycling never leaves the candidate lineup: a selection that pointed
/// inside it still does after a cycle in either direction, on the same
/// team.
pub proof fn lemma_cycle_stays_in_lineup(current: Target, aim_ko: bool, targets: Seq<Actor>)
    requires
        current matches Target::Single(id) ==> id.index < targets.len(),
    ensures
        spec_cycle_previous(current, aim_ko, targets) matches Target::Single(id2) ==> (
        current matches Target::Single(id) && id2.team == id.team && id2.index < targets.len()),
        spec_cycle_next(current, aim_ko, targets) matches Target::Single(id2) ==> (
        current matches Target::Single(id) && id2.team == id.team && id2.index < targets.len()),
{
    match current {
        Target::Single(id) => {
            lemma_last_targetable_bound(targets, id.index as int, aim_ko);
            lemma_first_targetable_bound(targets, id.index + 1, aim_ko);
            lemma_first_targetable_bound(targets, 0, aim_ko);
        },
        Target::WholeTeam(_) => {},
    }
}

/// Cycle a single-actor selection backward among the candidates.
pub fn cycle_previous_target(current: Target, aim_ko_targets: bool, possible_targets: &Vec<Actor>)
    -> (t: Target)
    requires
        match current {
            Target::Single(id) => id.index < possible_targets@.len(),
            Target::WholeTeam(_) => true,
        },
    ensures
        t == spec_cycle_previous(current, aim_ko_targets, possible_targets@),
{
    match current {
        Target::WholeTeam(_) => current,
        Target::Single(id) => {
            let candidate_count: usize = possible_targets.len();
            proof {
                assert(id.index < candidate_count);
            }
            match find_last_targetable_before(possible_targets, id.index, aim_ko_targets) {
                Option::Some(j) => Target::Single(ActorIdentifier { team: id.team, index: j }),
                Option::None => {
                    match find_first_targetable_from(
                        possible_targets,
                        id.index + 1,
                        aim_ko_targets,
                    ) {
                        Option::Some(j) => Target::Single(
                            ActorIdentifier { team: id.team, index: j },
                        ),
                        Option::None => current,
                    }
                },
            }
        },
    }
}

/// Cycle a single-actor selection forward among the candidates.
pub fn cycle_next_target(
    current: Target,
    aim_ko_targets: bool,
    possible_targets: &Vec<Actor>,
) -> (t: Target)
    requires
        match current {
            Target::Single(id) => id.index < possible_targets@.len(),
            Target::WholeTeam(_) => true,
        },
    ensures
        t == spec_cycle_next(current, aim_ko_targets, possible_targets@),
{
    match current {
        Target::WholeTeam(_) => current,
        Target::Single(id) => {
            let candidate_count: usize = possible_targets.len();
            proof {
                assert(id.index < candidate_count);
            }
            match find_first_targetable_from(possible_targets, 0, aim_ko_targets) {
                Option::Some(j) => {
                    if j < id.index {
                        Target::Single(ActorIdentifier { team: id.team, index: j })
                    } else {
                        match find_first_targetable_from(
                            possible_targets,
                            id.index + 1,
                            aim_ko_targets,
                        ) {
                            Option::Some(k) => Target::Single(
                                ActorIdentifier { team: id.team, index: k },
                            ),
                            Option::None => current,
                        }
                    }
                },
                Option::None => current,
            }
        },
    }
}

/// The action menu: the first decision state of each ally's turn.
#[derive(Clone, Copy, Debug, PartialEq, Eq, Structural)]
pub struct Menu {
    pub shared: Breadcrumbs,
}

/// The menu and transition one frame produces: the side-band knock-out
/// signal short-circuits into a skip before any input is read; otherwise
/// directional input moves the cursor, confirm opens target selection or
/// commits a guard, and cancel returns to the previous living ally.
pub open spec fn spec_menu_step(m: Menu, characters: Seq<Actor>, event: Option<InputEvent>) -> (
    Menu,
    Transition,
) {
    let cur = m.shared.current_character;
    let item = m.shared.current_item;
    if m.shared.ko_signal {
        (m, Transition::Skip(cur))
    } else {
        match event {
            Option::None => (m, Transition::Stay),
            Option::Some(InputEvent::Left) => (
                Menu {
                    shared: Breadcrumbs {
                        current_item: if item > 0 {
                            (item - 1) as usize
                        } else {
                            item
                        },
                        ..m.shared
                    },
                },
                Transition::Stay,
            ),
            Option::Some(InputEvent::Right) => (
                Menu {
                    shared: Breadcrumbs {
                        current_item: if item < MENU_ITEM_COUNT - 1 {
                            (item + 1) as usize
                        } else {
                            item
                        },
                        ..m.shared
                    },
                },
                Transition::Stay,
            ),
            Option::Some(InputEvent::PageStart) => (
                Menu { shared: Breadcrumbs { current_item: 0, ..m.shared } },
                Transition::Stay,
            ),
            Option::Some(InputEvent::PageEnd) => (
                Menu {
                    shared: Breadcrumbs { current_item: (MENU_ITEM_COUNT - 1) as usize, ..m.shared },
                },
                Transition::Stay,
            ),
            Option::Some(InputEvent::Confirm) => if item == 0 {
                (
                    m,
                    Transition::SwitchTo(
                        CharacterTurnDecisionState::Bash(
                            BashTargetSelection {
                                shared: m.shared,
                                selected: Target::Single(
                                    ActorIdentifier { team: Team::Enemy, index: 0 },
                                ),
                            },
                        ),
                    ),
                )
            } else if item == 1 {
                (
                    m,
                    Transition::SwitchTo(
                        CharacterTurnDecisionState::SpecialMove(
                            SpecialMoveTargetSelection {
                                shared: m.shared,
                                selected: Target::Single(
                                    ActorIdentifier { team: Team::Enemy, index: 0 },
                                ),
                                aim_ko_actors: false,
                            },
                        ),
                    ),
                )
            } else if item == MENU_ITEM_COUNT - 1 {
                (
                    m,
                    Transition::Validate(
                        AllyActionRecord {
                            id_in_team: cur,
                            registered_speed: characters[cur as int].stats.speed.spec_multiplied(),
                            action_type: ActionType::Guard,
                        },
                    ),
                )
            } else {
                (m, Transition::Stay)
            },
            Option::Some(InputEvent::Cancel) => if cur > 0 {
                match last_targetable_before(characters, cur as int, false) {
                    Option::Some(j) => (
                        m,
                        Transition::SwitchTo(
                            CharacterTurnDecisionState::Menu(
                                Menu {
                                    shared: Breadcrumbs {
                                        current_character: j as usize,
                                        current_item: 0,
                                        ko_signal: false,
                                    },
                                },
                            ),
                        ),
                    ),
                    Option::None => (m, Transition::Stay),
                }
            } else {
                (m, Transition::Stay)
            },
        }
    }
}

impl Menu {
    /// Run one frame of the menu against at most one input event.
    pub fn update(&mut self, characters: &Vec<Actor>, event: Option<InputEvent>) -> (t: Transition)
        requires
            old(self).shared.current_character < characters@.len(),
            characters@[old(self).shared.current_character as int].stats.speed.wf(),
        ensures
            (*final(self), t) == spec_menu_step(*old(self), characters@, event),
    {
        if self.shared.ko_signal {
            return Transition::Skip(self.shared.current_character);
        }
        match event {
            Option::None => Transition::Stay,
            Option::Some(InputEvent::Left) => {
                if self.shared.current_item > 0 {
                    self.shared.current_item = self.shared.current_item - 1;
                }
                Transition::Stay
            },
            Option::Some(InputEvent::Right) => {
                if self.shared.current_item < MENU_ITEM_COUNT - 1 {
                    self.shared.current_item = self.shared.current_item + 1;
                }
                Transition::Stay
            },
            Option::Some(InputEvent::PageStart) => {
                self.shared.current_item = 0;
                Transition::Stay
            },
            Option::Some(InputEvent::PageEnd) => {
                self.shared.current_item = MENU_ITEM_COUNT - 1;
                Transition::Stay
            },
            Option::Some(InputEvent::Confirm) => {
                if self.shared.current_item == 0 {
                    Transition::SwitchTo(
                        CharacterTurnDecisionState::Bash(
                            BashTargetSelection {
                                shared: self.shared,
                                selected: Target::Single(
                                    ActorIdentifier { team: Team::Enemy, index: 0 },
                                ),
                            },
                        ),
                    )
                } else if self.shared.current_item == 1 {
                    Transition::SwitchTo(
                        CharacterTurnDecisionState::SpecialMove(
                            SpecialMoveTargetSelection {
                                shared: self.shared,
                                selected: Target::Single(
                                    ActorIdentifier { team: Team::Enemy, index: 0 },
                                ),
                                aim_ko_actors: false,
                            },
                        ),
                    )
                } else if self.shared.current_item == MENU_ITEM_COUNT - 1 {
                    Transition::Validate(
                        AllyActionRecord {
                            id_in_team: self.shared.current_character,
                            registered_speed: characters[self.shared.current_character]
                                .stats
                                .speed
                                .multiplied(),
                            action_type: ActionType::Guard,
                        },
                    )
                } else {
                    Transition::Stay
                }
            },
            Option::Some(InputEvent::Cancel) => {
                if self.shared.current_character > 0 {
                    match find_last_targetable_before(
                        characters,
                        self.shared.current_character,
                        false,
                    ) {
                        Option::Some(j) => Transition::SwitchTo(
                            CharacterTurnDecisionState::Menu(
                                Menu {
                                    shared: Breadcrumbs {
                                        current_character: j,
                                        current_item: 0,
                                        ko_signal: false,
                                    },
                                },
                            ),
                        ),
                        Option::None => Transition::Stay,
                    }
                } else {
                    Transition::Stay
                }
            },
        }
    }
}

/// The transition one frame of a target-selection state produces: the
/// knock-out signal skips, directional input cycles a single-actor
/// selection (backward, or forward where the state supports it), cancel
/// returns to the menu preserving the cursor, and confirm commits a
/// strike against the current selection at the ally's live speed.
pub open spec fn spec_selection_step(
    shared: Breadcrumbs,
    selected: Target,
    aim_ko: bool,
    right_cycles_forward: bool,
    allies: Seq<Actor>,
    enemies: Seq<Actor>,
    event: Option<InputEvent>,
) -> (Target, Transition) {
    let cur = shared.current_character;
    if shared.ko_signal {
        (selected, Transition::Skip(cur))
    } else {
        match event {
            Option::Some(InputEvent::Left) => if selected is Single {
                (spec_cycle_previous(selected, aim_ko, enemies), Transition::Stay)
            } else {
                (selected, Transition::Stay)
            },
            Option::Some(InputEvent::Right) => if selected is Single {
                if right_cycles_forward {
                    (spec_cycle_next(selected, aim_ko, enemies), Transition::Stay)
                } else {
                    (spec_cycle_previous(selected, aim_ko, enemies), Transition::Stay)
                }
            } else {
                (selected, Transition::Stay)
            },
            Option::Some(InputEvent::Cancel) => (
                selected,
                Transition::SwitchTo(CharacterTurnDecisionState::Menu(Menu { shared })),
            ),
            Option::Some(InputEvent::Confirm) => (
                selected,
                Transition::Validate(
                    AllyActionRecord {
                        id_in_team: cur,
                        registered_speed: allies[cur as int].stats.speed.spec_multiplied(),
                        action_type: ActionType::Bash(selected),
                    },
                ),
            ),
            _ => (selected, Transition::Stay),
        }
    }
}

/// Picking the target of a basic strike.
#[derive(Clone, Copy, Debug, PartialEq, Eq, Structural)]
pub struct BashTargetSelection {
    pub shared: Breadcrumbs,
    pub selected: Target,
}

impl BashTargetSelection {
    pub fn current_target(&self) -> (t: &Target)
        ensures
            *t == self.selected,
    {
        &self.selected
    }

    pub fn get_shared(&self) -> (b: Breadcrumbs)
        ensures
            b == self.shared,
    {
        self.shared
    }

    /// Run one frame of strike target selection; both directions cycle
    /// backward among the living enemies.
    pub fn update(&mut self, allies: &Vec<Actor>, enemies: &Vec<Actor>, event: Option<InputEvent>)
        -> (t: Transition)
        requires
            old(self).shared.current_character < allies@.len(),
            allies@[old(self).shared.current_character as int].stats.speed.wf(),
            old(self).selected matches Target::Single(id) ==> id.index < enemies@.len(),
        ensures
            final(self).shared == old(self).shared,
            (final(self).selected, t) == spec_selection_step(
                old(self).shared,
                old(self).selected,
                false,
                false,
                allies@,
                enemies@,
                event,
            ),
    {
        if self.shared.ko_signal {
            return Transition::Skip(self.shared.current_character);
        }
        match event {
            Option::Some(InputEvent::Left) => {
                if self.selected.get_index().is_some() {
                    self.selected = cycle_previous_target(self.selected, false, enemies);
                }
                Transition::Stay
            },
            Option::Some(InputEvent::Right) => {
                if self.selected.get_index().is_some() {
                    self.selected = cycle_previous_target(self.selected, false, enemies);
                }
                Transition::Stay
            },
            Option::Some(InputEvent::Cancel) => Transition::SwitchTo(
                CharacterTurnDecisionState::Menu(Menu { shared: self.shared }),
            ),
            Option::Some(InputEvent::Confirm) => Transition::Validate(
                AllyActionRecord {
                    id_in_team: self.shared.current_character,
                    registered_speed: allies[self.shared.current_character]
                        .stats
                        .speed
                        .multiplied(),
                    action_type: ActionType::Bash(self.selected),
                },
            ),
            _ => Transition::Stay,
        }
    }
}

/// Picking the target of a special move; some moves may aim at the
/// fallen, and the selection may cycle in both directions.
#[derive(Clone, Copy, Debug, PartialEq, Eq, Structural)]
pub struct SpecialMoveTargetSelection {
    pub shared: Breadcrumbs,
    pub selected: Target,
    pub aim_ko_actors: bool,
}

impl SpecialMoveTargetSelection {
    pub fn current_target(&self) -> (t: &Target)
        ensures
            *t == self.selected,
    {
        &self.selected
    }

    pub fn get_shared(&self) -> (b: Breadcrumbs)
        ensures
            b == self.shared,
    {
        self.shared
    }

    /// Run one frame of special-move target selection.
    pub fn update(&mut self, allies: &Vec<Actor>, enemies: &Vec<Actor>, event: Option<InputEvent>)
        -> (t: Transition)
        requires
            old(self).shared.current_character < allies@.len(),
            allies@[old(self).shared.current_character as int].stats.speed.wf(),
            old(self).selected matches Target::Single(id) ==> id.index < enemies@.len(),
        ensures
            final(self).shared == old(self).shared,
            final(self).aim_ko_actors == old(self).aim_ko_actors,
            (final(self).selected, t) == spec_selection_step(
                old(self).shared,
                old(self).selected,
                old(self).aim_ko_actors,
                true,
                allies@,
                enemies@,
                event,
            ),
    {
        if self.shared.ko_signal {
            return Transition::Skip(self.shared.current_character);
        }
        match event {
            Option::Some(InputEvent::Left) => {
                if self.selected.get_index().is_some() {
                    self.selected = cycle_previous_target(
                        self.selected,
                        self.aim_ko_actors,
                        enemies,
                    );
                }
                Transition::Stay
            },
            Option::Some(InputEvent::Right) => {
                if self.selected.get_index().is_some() {
                    self.selected = cycle_next_target(self.selected, self.aim_ko_actors, enemies);
                }
                Transition::Stay
            },
            Option::Some(InputEvent::Cancel) => Transition::SwitchTo(
                CharacterTurnDecisionState::Menu(Menu { shared: self.shared }),
            ),
            Option::Some(InputEvent::Confirm) => Transition::Validate(
                AllyActionRecord {
                    id_in_team: self.shared.current_character,
                    registered_speed: allies[self.shared.current_character]
                        .stats
                        .speed
                        .multiplied(),
                    action_type: ActionType::Bash(self.selected),
                },
            ),
            _ => Transition::Stay,
        }
    }
}

/// The decision sub-machine's states: one per ally being walked through
/// its menu and target-selection flow.
#[derive(Clone, Copy, Debug, PartialEq, Eq, Structural)]
pub enum CharacterTurnDecisionState {
    Menu(Menu),
    Bash(BashTargetSelection),
    SpecialMove(SpecialMoveTargetSelection),
}

/// Everything one frame of the decision flow owes, relating the scene
/// parts before the step to those after it. The active sub-state is
/// stepped against at most one event; a commit pushes exactly one
/// record and a skip none; a back-step truncates the records to the
/// resumed ally; and the session advances to the next living ally, to
/// turn preparation past the last one, or to the terminal state of a
/// decided battle.
pub open spec fn spec_decision_frame(
    s: CharacterTurnDecisionState,
    characters: Seq<Actor>,
    enemies: Seq<Actor>,
    records_pre: Seq<AllyActionRecord>,
    event: Option<InputEvent>,
    records_post: Seq<AllyActionRecord>,
    state_post: MacroBattleStates,
) -> bool {
    let stepped = spec_decision_transition(s, characters, enemies, event);
    let decided = crate::battle::spec_all_ko(enemies) || crate::battle::spec_all_ko(characters);
    let end_state = if crate::battle::spec_all_ko(enemies) {
        MacroBattleStates::Win
    } else {
        MacroBattleStates::GameOver
    };
    match stepped.1 {
        Transition::Stay => {
            &&& records_post == records_pre
            &&& state_post == MacroBattleStates::CharacterTurnDecision(stepped.0)
        },
        Transition::Skip(cur) => {
            &&& records_post == records_pre
            &&& state_post == if decided {
                end_state
            } else {
                match first_living_from(characters, cur + 1) {
                    Option::Some(j) => MacroBattleStates::CharacterTurnDecision(
                        spec_menu_at(j as usize),
                    ),
                    Option::None => MacroBattleStates::TurnPreparation(TurnPreparationState {  }),
                }
            }
        },
        Transition::Validate(rec) => {
            &&& records_post == records_pre.push(rec)
            &&& state_post == match first_living_from(characters, rec.id_in_team + 1) {
                Option::Some(j) => MacroBattleStates::CharacterTurnDecision(
                    spec_menu_at(j as usize),
                ),
                Option::None => MacroBattleStates::TurnPreparation(TurnPreparationState {  }),
            }
        },
        Transition::SwitchTo(s3) => {
            &&& records_post == spec_records_below(
                records_pre,
                s3.spec_shared().current_character,
            )
            &&& state_post == MacroBattleStates::CharacterTurnDecision(s3)
        },
    }
}

impl CharacterTurnDecisionState {
    /// The breadcrumbs of whichever sub-state is active.
    pub open spec fn spec_shared(self) -> Breadcrumbs {
        match self {
            CharacterTurnDecisionState::Menu(m) => m.shared,
            CharacterTurnDecisionState::Bash(b) => b.shared,
            CharacterTurnDecisionState::SpecialMove(s) => s.shared,
        }
    }

    /// The state with its knock-out signal raised.
    pub open spec fn spec_with_ko_signal(self) -> CharacterTurnDecisionState {
        match self {
            CharacterTurnDecisionState::Menu(m) => CharacterTurnDecisionState::Menu(
                Menu { shared: Breadcrumbs { ko_signal: true, ..m.shared } },
            ),
            CharacterTurnDecisionState::Bash(b) => CharacterTurnDecisionState::Bash(
                BashTargetSelection {
                    shared: Breadcrumbs { ko_signal: true, ..b.shared },
                    ..b
                },
            ),
            CharacterTurnDecisionState::SpecialMove(s) => CharacterTurnDecisionState::SpecialMove(
                SpecialMoveTargetSelection {
                    shared: Breadcrumbs { ko_signal: true, ..s.shared },
                    ..s
                },
            ),
        }
    }

    /// Route a knock-out to the sub-machine: if the fallen actor is the
    /// one currently deciding, raise the side-band signal into whichever
    /// state is active.
    pub fn on_character_ko(&mut self, id: ActorIdentifier)
        ensures
            *final(self) == if id.index == old(self).spec_shared().current_character {
                old(self).spec_with_ko_signal()
            } else {
                *old(self)
            },
    {
        let shared: &mut Breadcrumbs = match self {
            CharacterTurnDecisionState::Bash(bash_state) => &mut bash_state.shared,
            CharacterTurnDecisionState::SpecialMove(move_state) => &mut move_state.shared,
            CharacterTurnDecisionState::Menu(menu_state) => &mut menu_state.shared,
        };
        if shared.current_character == id.index {
            shared.ko_signal = true;
        }
    }

    /// Open a fresh decision cycle at the first living ally; with every
    /// ally fallen there is no decision to make.
    pub fn new_turn(characters: &Vec<Actor>) -> (r: Option<CharacterTurnDecisionState>)
        ensures
            r matches Option::Some(st) ==> st.spec_shared().current_character < characters@.len(),
            match first_living_from(characters@, 0) {
                Option::Some(i) => r == Option::Some(
                    CharacterTurnDecisionState::Menu(
                        Menu {
                            shared: Breadcrumbs {
                                current_character: i as usize,
                                current_item: 0,
                                ko_signal: false,
                            },
                        },
                    ),
                ),
                Option::None => r is None,
            },
    {
        match find_first_targetable_from(characters, 0, false) {
            Option::Some(i) => Option::Some(
                CharacterTurnDecisionState::Menu(
                    Menu {
                        shared: Breadcrumbs {
                            current_character: i,
                            current_item: 0,
                            ko_signal: false,
                        },
                    },
                ),
            ),
            Option::None => Option::None,
        }
    }
}

/// The sub-state and transition one frame of the decision sub-machine
/// produces, whichever sub-state is active.
pub open spec fn spec_decision_transition(
    s: CharacterTurnDecisionState,
    characters: Seq<Actor>,
    enemies: Seq<Actor>,
    event: Option<InputEvent>,
) -> (CharacterTurnDecisionState, Transition) {
    match s {
        CharacterTurnDecisionState::Menu(m) => {
            let stepped = spec_menu_step(m, characters, event);
            (CharacterTurnDecisionState::Menu(stepped.0), stepped.1)
        },
        CharacterTurnDecisionState::Bash(b) => {
            let stepped = spec_selection_step(
                b.shared,
                b.selected,
                false,
                false,
                characters,
                enemies,
                event,
            );
            (
                CharacterTurnDecisionState::Bash(
                    BashTargetSelection { shared: b.shared, selected: stepped.0 },
                ),
                stepped.1,
            )
        },
        CharacterTurnDecisionState::SpecialMove(sm) => {
            let stepped = spec_selection_step(
                sm.shared,
                sm.selected,
                sm.aim_ko_actors,
                true,
                characters,
                enemies,
                event,
            );
            (
                CharacterTurnDecisionState::SpecialMove(
                    SpecialMoveTargetSelection {
                        shared: sm.shared,
                        selected: stepped.0,
                        aim_ko_actors: sm.aim_ko_actors,
                    },
                ),
                stepped.1,
            )
        },
    }
}

/// Knock-out skip: with the side-band signal raised for the deciding
/// ally, one frame of any decision sub-state yields a skip of exactly
/// that ally — never a committed action, whatever the input event.
pub proof fn lemma_ko_yields_skip(
    s: CharacterTurnDecisionState,
    characters: Seq<Actor>,
    enemies: Seq<Actor>,
    event: Option<InputEvent>,
)
    requires
        s.spec_shared().ko_signal,
    ensures
        spec_decision_transition(s, characters, enemies, event).1 == Transition::Skip(
            s.spec_shared().current_character,
        ),
        spec_decision_transition(s, characters, enemies, event).0 == s,
{
}

/// The length of the longest record prefix that only names allies below
/// `cur`.
pub open spec fn spec_prefix_below(records: Seq<AllyActionRecord>, cur: usize) -> int
    decreases records.len(),
{
    if records.len() == 0 {
        0
    } else if records[0].id_in_team < cur {
        1 + spec_prefix_below(records.drop_first(), cur)
    } else {
        0
    }
}

/// The records kept when the decision flow steps back to ally `cur`:
/// only those of allies that still stand before it, so the ally decides
/// afresh.
pub open spec fn spec_records_below(records: Seq<AllyActionRecord>, cur: usize) -> Seq<
    AllyActionRecord,
> {
    records.take(spec_prefix_below(records, cur))
}

/// Every record kept by the prefix names an ally below `cur`.
proof fn lemma_prefix_below_ids(records: Seq<AllyActionRecord>, cur: usize)
    ensures
        forall|i: int|
            0 <= i < spec_prefix_below(records, cur) ==> (#[trigger] records[i]).id_in_team < cur,
        0 <= spec_prefix_below(records, cur) <= records.len(),
    decreases records.len(),
{
    if records.len() > 0 && records[0].id_in_team < cur {
        lemma_prefix_below_ids(records.drop_first(), cur);
        assert forall|i: int|
            0 <= i < spec_prefix_below(records, cur) implies (#[trigger] records[i]).id_in_team
            < cur by {
            if i > 0 {
                assert(records.drop_first()[i - 1] == records[i]);
            }
        }
    }
}

/// A scan that stops at the first record at or past `cur` has measured
/// the prefix below `cur`.
proof fn lemma_prefix_below_is(records: Seq<AllyActionRecord>, cur: usize, k: int)
    requires
        0 <= k <= records.len(),
        forall|i: int| 0 <= i < k ==> (#[trigger] records[i]).id_in_team < cur,
        k == records.len() || records[k].id_in_team >= cur,
    ensures
        spec_prefix_below(records, cur) == k,
    decreases k,
{
    if records.len() > 0 && records[0].id_in_team < cur {
        assert(k >= 1);
        lemma_prefix_below_is(records.drop_first(), cur, k - 1);
    }
}

/// Drop every record at or past ally `cur`, keeping the prefix of
/// records below it.
fn truncate_records(records: &mut Vec<AllyActionRecord>, cur: usize)
    ensures
        final(records)@ == spec_records_below(old(records)@, cur),
{
    let mut k: usize = 0;
    while k < records.len() && records[k].id_in_team < cur
        invariant
            k <= records@.len(),
            records@ == old(records)@,
            forall|i: int| 0 <= i < k ==> (#[trigger] records@[i]).id_in_team < cur,
        decreases records@.len() - k,
    {
        k = k + 1;
    }
    proof {
        lemma_prefix_below_is(records@, cur, k as int);
    }
    records.truncate(k);
}

impl CharacterTurnDecisionState {
    /// The breadcrumbs of whichever sub-state is active.
    pub fn current_shared(&self) -> (b: Breadcrumbs)
        ensures
            b == self.spec_shared(),
    {
        match self {
            CharacterTurnDecisionState::Menu(m) => m.shared,
            CharacterTurnDecisionState::Bash(b) => b.shared,
            CharacterTurnDecisionState::SpecialMove(s) => s.shared,
        }
    }

    /// Run one frame of the decision flow against at most one input
    /// event: step the active sub-state, commit or skip the deciding
    /// ally where the step says so, and advance to the next living ally,
    /// to turn preparation past the last one, or to the terminal state
    /// of a decided battle.
    pub fn update(scene: &mut BattleScene, event: Option<InputEvent>)
        requires
            old(scene).wf(),
        ensures
            final(scene).wf(),
            final(scene).characters == old(scene).characters,
            final(scene).enemies == old(scene).enemies,
            final(scene).turn_order == old(scene).turn_order,
            !(old(scene).state matches MacroBattleStates::CharacterTurnDecision(_))
                ==> *final(scene) == *old(scene),
            old(scene).state matches MacroBattleStates::CharacterTurnDecision(s)
                ==> spec_decision_frame(
                s,
                old(scene).characters@,
                old(scene).enemies@,
                old(scene).allies_actions@,
                event,
                final(scene).allies_actions@,
                final(scene).state,
            ),
    {
        let s = match scene.state {
            MacroBattleStates::CharacterTurnDecision(s) => s,
            _ => {
                return ;
            },
        };
        let mut sub = s;
        let t = match &mut sub {
            CharacterTurnDecisionState::Menu(m) => m.update(&scene.characters, event),
            CharacterTurnDecisionState::Bash(b) => b.update(
                &scene.characters,
                &scene.enemies,
                event,
            ),
            CharacterTurnDecisionState::SpecialMove(sm) => sm.update(
                &scene.characters,
                &scene.enemies,
                event,
            ),
        };
        scene.state = MacroBattleStates::CharacterTurnDecision(sub);
        match t {
            Transition::Stay => {
                proof {
                    match s {
                        CharacterTurnDecisionState::Bash(b) => {
                            lemma_cycle_stays_in_lineup(b.selected, false, old(scene).enemies@);
                        },
                        CharacterTurnDecisionState::SpecialMove(sm) => {
                            lemma_cycle_stays_in_lineup(
                                sm.selected,
                                sm.aim_ko_actors,
                                old(scene).enemies@,
                            );
                        },
                        CharacterTurnDecisionState::Menu(_) => {},
                    }
                }
            },
            Transition::Skip(cur) => {
                let roster_len: usize = scene.characters.len();
                proof {
                    assert(cur < roster_len);
                }
                if scene.end_of_fight() {
                    match scene.get_end_state() {
                        Option::Some(end) => {
                            scene.state = end;
                        },
                        Option::None => {
                            proof {
                                assert(false);
                            }
                        },
                    }
                } else {
                    match find_first_targetable_from(&scene.characters, cur + 1, false) {
                        Option::Some(j) => {
                            scene.state = MacroBattleStates::CharacterTurnDecision(
                                CharacterTurnDecisionState::Menu(
                                    Menu {
                                        shared: Breadcrumbs {
                                            current_character: j,
                                            current_item: 0,
                                            ko_signal: false,
                                        },
                                    },
                                ),
                            );
                        },
                        Option::None => {
                            scene.state = MacroBattleStates::TurnPreparation(
                                TurnPreparationState {  },
                            );
                        },
                    }
                }
            },
            Transition::Validate(record) => {
                let cur = record.id_in_team;
                let roster_len: usize = scene.characters.len();
                proof {
                    assert(cur < roster_len);
                }
                scene.allies_actions.push(record);
                proof {
                    let r0 = old(scene).allies_actions@;
                    let rnew = scene.allies_actions@;
                    match s {
                        CharacterTurnDecisionState::Bash(b) => {
                            assert(old(scene).selection_wf(b.selected));
                        },
                        CharacterTurnDecisionState::SpecialMove(sm) => {
                            assert(old(scene).selection_wf(sm.selected));
                        },
                        CharacterTurnDecisionState::Menu(_) => {},
                    }
                    assert(scene.record_wf(record));
                    assert forall|i: int| 0 <= i < rnew.len() implies scene.record_wf(
                        #[trigger] rnew[i],
                    ) by {
                        if i < r0.len() {
                            assert(old(scene).record_wf(r0[i]));
                        } else {
                            assert(rnew[i] == record);
                        }
                    }
                    assert forall|i: int, j: int|
                        0 <= i < j < rnew.len() implies #[trigger] rnew[i].id_in_team
                        < #[trigger] rnew[j].id_in_team by {
                        if j < r0.len() {
                            assert(r0[i].id_in_team < r0[j].id_in_team);
                        } else {
                            assert(rnew[j] == record);
                            assert(r0[i].id_in_team < s.spec_shared().current_character);
                        }
                    }
                }
                match find_first_targetable_from(&scene.characters, cur + 1, false) {
                    Option::Some(j) => {
                        scene.state = MacroBattleStates::CharacterTurnDecision(
                            CharacterTurnDecisionState::Menu(
                                Menu {
                                    shared: Breadcrumbs {
                                        current_character: j,
                                        current_item: 0,
                                        ko_signal: false,
                                    },
                                },
                            ),
                        );
                    },
                    Option::None => {
                        scene.state = MacroBattleStates::TurnPreparation(TurnPreparationState {  });
                    },
                }
            },
            Transition::SwitchTo(new_sub) => {
                let cur = new_sub.current_shared().current_character;
                truncate_records(&mut scene.allies_actions, cur);
                scene.state = MacroBattleStates::CharacterTurnDecision(new_sub);
                proof {
                    let r0 = old(scene).allies_actions@;
                    let rnew = scene.allies_actions@;
                    lemma_prefix_below_ids(r0, cur);
                    assert forall|i: int| 0 <= i < rnew.len() implies scene.record_wf(
                        #[trigger] rnew[i],
                    ) by {
                        assert(rnew[i] == r0[i]);
                        assert(old(scene).record_wf(r0[i]));
                    }
                    assert forall|i: int, j: int|
                        0 <= i < j < rnew.len() implies #[trigger] rnew[i].id_in_team
                        < #[trigger] rnew[j].id_in_team by {
                        assert(rnew[i] == r0[i] && rnew[j] == r0[j]);
                        assert(r0[i].id_in_team < r0[j].id_in_team);
                    }
                    match s {
                        CharacterTurnDecisionState::Menu(m) => {
                            lemma_last_targetable_bound(
                                old(scene).characters@,
                                m.shared.current_character as int,
                                false,
                            );
                        },
                        _ => {},
                    }
                }
            },
        }
    }
}

/// The candidates a single-actor selection cycles among, by the team the
/// selection points into.
pub fn get_possible_targets<'a>(
    selected: &Target,
    allies: &'a Vec<Actor>,
    enemies: &'a Vec<Actor>,
) -> (r: &'a Vec<Actor>)
    ensures
        *r == if selected.spec_get_team() is Ally {
            *allies
        } else {
            *enemies
        },
{
    match selected.get_team() {
        Team::Ally => allies,
        Team::Enemy => enemies,
    }
}

} // verus!
