//! The turn scheduler: a pure function of the committed ally records and
//! the living enemies, producing the speed-ordered turn queue.
//!
//! Ordering contract: entries are ranked by speed, highest first; ties
//! keep encounter order, allies (in record order) before enemies (in
//! lineup order). The ranking is total, so the queue is uniquely
//! determined by its input.

use vstd::prelude::*;
use vstd::seq_lib::group_to_multiset_ensures;

use crate::battle::action_decision::AllyActionRecord;
use crate::battle::turn::{TurnSubState, TurnUnrollState};
use crate::battle::{Actor, BattleScene, MacroBattleStates, Team, TurnAction};

verus! {

/// The marker state during which the scheduler runs.
#[derive(Clone, Copy, Debug, PartialEq, Eq, Structural)]
pub struct TurnPreparationState {
}

/// The queue entry an ally record becomes: the speed snapshot taken at
/// decision time, never the live stat.
pub open spec fn spec_ally_entry(r: AllyActionRecord) -> TurnAction {
    TurnAction { id_in_team: r.id_in_team, team: Team::Ally, speed: r.registered_speed }
}

/// The entries the committed ally records contribute, in record order.
pub open spec fn spec_ally_entries(records: Seq<AllyActionRecord>) -> Seq<TurnAction> {
    records.map_values(|r: AllyActionRecord| spec_ally_entry(r))
}

/// The entries the enemies from index `i` on contribute: one per living
/// enemy, at its live speed, in lineup order.
pub open spec fn spec_enemy_entries(enemies: Seq<Actor>, i: int) -> Seq<TurnAction>
    decreases enemies.len() - i,
{
    if i < 0 || i >= enemies.len() {
        Seq::empty()
    } else {
        let rest = spec_enemy_entries(enemies, i + 1);
        if !enemies[i].is_ko() {
            seq![
                TurnAction {
                    id_in_team: i as usize,
                    team: Team::Enemy,
                    speed: enemies[i].stats.speed.spec_multiplied(),
                },
            ] + rest
        } else {
            rest
        }
    }
}

/// Everyone with a claim to act this turn, in encounter order: allies
/// with committed records first, then the living enemies.
pub open spec fn spec_candidates(records: Seq<AllyActionRecord>, enemies: Seq<Actor>) -> Seq<
    TurnAction,
> {
    spec_ally_entries(records) + spec_enemy_entries(enemies, 0)
}

/// Whether tagged entry `a` acts strictly before `b`: higher speed
/// first, equal speeds ranked by encounter position. Positions are
/// distinct, so this ranking is total over any one turn's candidates.
pub open spec fn acts_before(a: (usize, TurnAction), b: (usize, TurnAction)) -> bool {
    a.1.speed > b.1.speed || (a.1.speed == b.1.speed && a.0 < b.0)
}

/// Insert a tagged entry into a ranked sequence, before the first entry
/// it outranks.
pub open spec fn spec_insert_ranked(s: Seq<(usize, TurnAction)>, x: (usize, TurnAction)) -> Seq<
    (usize, TurnAction),
>
    decreases s.len(),
{
    if s.len() == 0 {
        seq![x]
    } else if acts_before(x, s[0]) {
        seq![x] + s
    } else {
        seq![s[0]] + spec_insert_ranked(s.drop_first(), x)
    }
}

/// Rank a tagged candidate sequence by repeated insertion.
pub open spec fn spec_sort_ranked(s: Seq<(usize, TurnAction)>) -> Seq<(usize, TurnAction)>
    decreases s.len(),
{
    if s.len() == 0 {
        Seq::empty()
    } else {
        spec_insert_ranked(spec_sort_ranked(s.drop_last()), s.last())
    }
}

/// Each candidate tagged with its encounter position.
pub open spec fn spec_tag(s: Seq<TurnAction>) -> Seq<(usize, TurnAction)> {
    Seq::new(s.len(), |i: int| (i as usize, s[i]))
}

/// The tags stripped back off.
pub open spec fn spec_strip(s: Seq<(usize, TurnAction)>) -> Seq<TurnAction> {
    s.map_values(|p: (usize, TurnAction)| p.1)
}

/// The turn queue the scheduler owes: the candidates ranked by speed,
/// highest first, ties in encounter order.
pub open spec fn spec_schedule(records: Seq<AllyActionRecord>, enemies: Seq<Actor>) -> Seq<
    TurnAction,
> {
    spec_strip(spec_sort_ranked(spec_tag(spec_candidates(records, enemies))))
}

/// A tagged sequence is ranked when no later entry strictly outranks an
/// earlier one.
pub open spec fn ranked(s: Seq<(usize, TurnAction)>) -> bool {
    forall|i: int, j: int| 0 <= i < j < s.len() ==> !acts_before(#[trigger] s[j], #[trigger] s[i])
}

/// Outranking is transitive.
proof fn lemma_acts_before_trans(a: (usize, TurnAction), b: (usize, TurnAction), c: (
    usize,
    TurnAction,
))
    requires
        acts_before(a, b),
        acts_before(b, c),
    ensures
        acts_before(a, c),
{
}

/// Insertion adds exactly the new entry: the length grows by one, every
/// entry of the result is the new one or one of the old, and the
/// multiset gains the new entry.
proof fn lemma_insert_ranked_basic(s: Seq<(usize, TurnAction)>, x: (usize, TurnAction))
    ensures
        spec_insert_ranked(s, x).len() == s.len() + 1,
        forall|k: int|
            0 <= k < spec_insert_ranked(s, x).len() ==> (#[trigger] spec_insert_ranked(s, x)[k]
                == x || s.contains(spec_insert_ranked(s, x)[k])),
        spec_insert_ranked(s, x).to_multiset() == s.to_multiset().insert(x),
    decreases s.len(),
{
    broadcast use group_to_multiset_ensures;

    let out = spec_insert_ranked(s, x);
    if s.len() == 0 {
        assert(out =~= Seq::empty().push(x));
        assert(out.to_multiset() =~= s.to_multiset().insert(x));
    } else if acts_before(x, s[0]) {
        assert(out =~= seq![x] + s);
        assert(out =~= s.insert(0, x));
        s.insert_ensures(0, x);
        assert forall|k: int| 0 <= k < out.len() implies (#[trigger] out[k] == x || s.contains(
            out[k],
        )) by {
            if k > 0 {
                assert(out[k] == s[k - 1]);
            }
        }
        assert(out.to_multiset() =~= s.to_multiset().insert(x));
    } else {
        let rest = spec_insert_ranked(s.drop_first(), x);
        lemma_insert_ranked_basic(s.drop_first(), x);
        assert(out =~= seq![s[0]] + rest);
        assert forall|k: int| 0 <= k < out.len() implies (#[trigger] out[k] == x || s.contains(
            out[k],
        )) by {
            if k == 0 {
                assert(s.contains(s[0]));
            } else {
                assert(out[k] == rest[k - 1]);
                if rest[k - 1] != x {
                    let m = choose|m: int|
                        0 <= m < s.drop_first().len() && s.drop_first()[m] == rest[k - 1];
                    assert(s[m + 1] == rest[k - 1]);
                }
            }
        }
        assert(s =~= seq![s[0]] + s.drop_first());
        vstd::seq_lib::lemma_multiset_commutative(seq![s[0]], rest);
        vstd::seq_lib::lemma_multiset_commutative(seq![s[0]], s.drop_first());
        assert(seq![s[0]].to_multiset() =~= Seq::empty().push(s[0]).to_multiset());
        assert(out.to_multiset() =~= s.to_multiset().insert(x));
    }
}

/// Insertion before the first outranked entry keeps the sequence ranked.
proof fn lemma_insert_ranked_sorted(s: Seq<(usize, TurnAction)>, x: (usize, TurnAction))
    requires
        ranked(s),
    ensures
        ranked(spec_insert_ranked(s, x)),
    decreases s.len(),
{
    let out = spec_insert_ranked(s, x);
    if s.len() == 0 {
    } else if acts_before(x, s[0]) {
        assert forall|i: int, j: int| 0 <= i < j < out.len() implies !acts_before(
            #[trigger] out[j],
            #[trigger] out[i],
        ) by {
            if i == 0 {
                if j >= 1 && acts_before(out[j], x) {
                    lemma_acts_before_trans(s[j - 1], x, s[0]);
                }
            } else {
                assert(out[i] == s[i - 1] && out[j] == s[j - 1]);
            }
        }
    } else {
        let rest = spec_insert_ranked(s.drop_first(), x);
        lemma_insert_ranked_sorted(s.drop_first(), x);
        lemma_insert_ranked_basic(s.drop_first(), x);
        assert forall|i: int, j: int| 0 <= i < j < out.len() implies !acts_before(
            #[trigger] out[j],
            #[trigger] out[i],
        ) by {
            if i == 0 {
                assert(out[j] == rest[j - 1]);
                if rest[j - 1] == x {
                    assert(!acts_before(x, s[0]));
                } else {
                    let m = choose|m: int|
                        0 <= m < s.drop_first().len() && s.drop_first()[m] == rest[j - 1];
                    assert(s[m + 1] == rest[j - 1]);
                    assert(!acts_before(s[m + 1], s[0]));
                }
            } else {
                assert(out[i] == rest[i - 1] && out[j] == rest[j - 1]);
            }
        }
    }
}

/// Where the new entry outranks nothing before position `j` and
/// outranks the entry at `j` (or lands at the end), insertion is exactly
/// a splice at `j`.
proof fn lemma_insert_ranked_splice(s: Seq<(usize, TurnAction)>, x: (usize, TurnAction), j: int)
    requires
        0 <= j <= s.len(),
        forall|i: int| 0 <= i < j ==> !acts_before(x, #[trigger] s[i]),
        j == s.len() || acts_before(x, s[j]),
    ensures
        spec_insert_ranked(s, x) == s.insert(j, x),
    decreases s.len(),
{
    if s.len() == 0 {
        assert(spec_insert_ranked(s, x) =~= s.insert(0, x));
    } else if acts_before(x, s[0]) {
        assert(j == 0);
        assert(spec_insert_ranked(s, x) =~= s.insert(0, x));
    } else {
        assert(j >= 1);
        lemma_insert_ranked_splice(s.drop_first(), x, j - 1);
        assert(spec_insert_ranked(s, x) =~= s.insert(j, x));
    }
}

/// Ranking a tagged sequence keeps its length and entries (as a
/// multiset) and yields a ranked order.
pub proof fn lemma_sort_ranked_ensures(s: Seq<(usize, TurnAction)>)
    ensures
        spec_sort_ranked(s).len() == s.len(),
        spec_sort_ranked(s).to_multiset() == s.to_multiset(),
        ranked(spec_sort_ranked(s)),
    decreases s.len(),
{
    broadcast use group_to_multiset_ensures;

    if s.len() > 0 {
        lemma_sort_ranked_ensures(s.drop_last());
        lemma_insert_ranked_basic(spec_sort_ranked(s.drop_last()), s.last());
        lemma_insert_ranked_sorted(spec_sort_ranked(s.drop_last()), s.last());
        assert(s =~= s.drop_last().push(s.last()));
        assert(s.to_multiset() =~= s.drop_last().to_multiset().insert(s.last()));
    }
}

/// Every ranked entry is one of the tagged candidates.
pub proof fn lemma_sort_ranked_membership(s: Seq<(usize, TurnAction)>, k: int)
    requires
        0 <= k < spec_sort_ranked(s).len(),
    ensures
        s.contains(spec_sort_ranked(s)[k]),
{
    broadcast use group_to_multiset_ensures;

    lemma_sort_ranked_ensures(s);
    let out = spec_sort_ranked(s);
    assert(out.contains(out[k]));
    assert(out.to_multiset().count(out[k]) > 0);
}

/// The ranked tagged candidates never hold the same entry twice, since
/// every candidate carries its own encounter position.
proof fn lemma_sort_ranked_no_duplicates(c: Seq<TurnAction>)
    requires
        c.len() <= usize::MAX,
    ensures
        spec_sort_ranked(spec_tag(c)).no_duplicates(),
{
    broadcast use group_to_multiset_ensures;

    let tagged = spec_tag(c);
    let sorted = spec_sort_ranked(tagged);
    assert forall|a: int, b: int|
        0 <= a < tagged.len() && 0 <= b < tagged.len() && a != b implies #[trigger] tagged[a]
        != #[trigger] tagged[b] by {
        assert(tagged[a] == (a as usize, c[a]));
        assert(tagged[b] == (b as usize, c[b]));
    }
    assert(tagged.no_duplicates());
    lemma_sort_ranked_ensures(tagged);
    tagged.lemma_multiset_has_no_duplicates();
    sorted.lemma_multiset_has_no_duplicates_conv();
}

/// The queue never ranks a slower entry ahead of a faster one: speeds
/// are non-increasing front to back.
pub proof fn lemma_schedule_speeds_descending(records: Seq<AllyActionRecord>, enemies: Seq<Actor>)
    ensures
        forall|i: int, j: int|
            0 <= i < j < spec_schedule(records, enemies).len() ==> (#[trigger] spec_schedule(
                records,
                enemies,
            )[i]).speed >= (#[trigger] spec_schedule(records, enemies)[j]).speed,
{
    let c = spec_candidates(records, enemies);
    let sorted = spec_sort_ranked(spec_tag(c));
    lemma_sort_ranked_ensures(spec_tag(c));
    assert forall|i: int, j: int|
        0 <= i < j < spec_schedule(records, enemies).len() implies (#[trigger] spec_schedule(
        records,
        enemies,
    )[i]).speed >= (#[trigger] spec_schedule(records, enemies)[j]).speed by {
        assert(!acts_before(sorted[j], sorted[i]));
    }
}

/// With no two candidates sharing a speed, the queue is strictly
/// descending in speed.
pub proof fn lemma_schedule_strictly_descending(records: Seq<AllyActionRecord>, enemies: Seq<Actor>)
    requires
        spec_candidates(records, enemies).len() <= usize::MAX,
        forall|i: int, j: int|
            0 <= i < j < spec_candidates(records, enemies).len() ==> (#[trigger] spec_candidates(
                records,
                enemies,
            )[i]).speed != (#[trigger] spec_candidates(records, enemies)[j]).speed,
    ensures
        forall|i: int, j: int|
            0 <= i < j < spec_schedule(records, enemies).len() ==> (#[trigger] spec_schedule(
                records,
                enemies,
            )[i]).speed > (#[trigger] spec_schedule(records, enemies)[j]).speed,
{
    let c = spec_candidates(records, enemies);
    let tagged = spec_tag(c);
    let sorted = spec_sort_ranked(tagged);
    lemma_sort_ranked_ensures(tagged);
    lemma_sort_ranked_no_duplicates(c);
    assert forall|i: int, j: int|
        0 <= i < j < spec_schedule(records, enemies).len() implies (#[trigger] spec_schedule(
        records,
        enemies,
    )[i]).speed > (#[trigger] spec_schedule(records, enemies)[j]).speed by {
        assert(!acts_before(sorted[j], sorted[i]));
        if sorted[i].1.speed == sorted[j].1.speed {
            lemma_sort_ranked_membership(tagged, i);
            lemma_sort_ranked_membership(tagged, j);
            let mi = choose|m: int| 0 <= m < tagged.len() && tagged[m] == sorted[i];
            let mj = choose|m: int| 0 <= m < tagged.len() && tagged[m] == sorted[j];
            assert(c[mi].speed == c[mj].speed);
            assert(mi == mj);
            assert(sorted[i] == sorted[j]);
        }
    }
}

/// Entries of equal speed keep their encounter order: among the ranked
/// tagged candidates, ties stand in strictly increasing position, so
/// allies (in record order) act before enemies (in lineup order) of the
/// same speed, and the queue is uniquely determined by its input.
pub proof fn lemma_schedule_tiebreak(c: Seq<TurnAction>)
    requires
        c.len() <= usize::MAX,
    ensures
        forall|i: int, j: int|
            0 <= i < j < spec_sort_ranked(spec_tag(c)).len() && (#[trigger] spec_sort_ranked(
                spec_tag(c),
            )[i]).1.speed == (#[trigger] spec_sort_ranked(spec_tag(c))[j]).1.speed
                ==> spec_sort_ranked(spec_tag(c))[i].0 < spec_sort_ranked(spec_tag(c))[j].0,
{
    let tagged = spec_tag(c);
    let sorted = spec_sort_ranked(tagged);
    lemma_sort_ranked_ensures(tagged);
    lemma_sort_ranked_no_duplicates(c);
    assert forall|i: int, j: int|
        0 <= i < j < sorted.len() && (#[trigger] sorted[i]).1.speed == (
        #[trigger] sorted[j]).1.speed implies sorted[i].0 < sorted[j].0 by {
        assert(!acts_before(sorted[j], sorted[i]));
        assert(sorted[i] != sorted[j]);
        lemma_sort_ranked_membership(tagged, i);
        lemma_sort_ranked_membership(tagged, j);
        let mi = choose|m: int| 0 <= m < tagged.len() && tagged[m] == sorted[i];
        let mj = choose|m: int| 0 <= m < tagged.len() && tagged[m] == sorted[j];
        assert(tagged[mi] == (mi as usize, c[mi]));
        assert(tagged[mj] == (mj as usize, c[mj]));
        assert(sorted[i].0 == mi as usize && sorted[j].0 == mj as usize);
    }
}

/// Whether tagged entry `a` outranks `b`, deciding `acts_before`.
fn acts_before_exec(a: &(usize, TurnAction), b: &(usize, TurnAction)) -> (r: bool)
    ensures
        r == acts_before(*a, *b),
{
    a.1.speed > b.1.speed || (a.1.speed == b.1.speed && a.0 < b.0)
}

/// The position a new tagged entry is spliced in at: just before the
/// first entry it outranks.
fn find_insert_pos(sorted: &Vec<(usize, TurnAction)>, x: &(usize, TurnAction)) -> (j: usize)
    ensures
        j <= sorted@.len(),
        forall|i: int| 0 <= i < j ==> !acts_before(*x, #[trigger] sorted@[i]),
        j < sorted@.len() ==> acts_before(*x, sorted@[j as int]),
{
    let mut j: usize = 0;
    while j < sorted.len()
        invariant
            j <= sorted@.len(),
            forall|i: int| 0 <= i < j ==> !acts_before(*x, #[trigger] sorted@[i]),
        decreases sorted@.len() - j,
    {
        if acts_before_exec(x, &sorted[j]) {
            return j;
        }
        j = j + 1;
    }
    j
}

/// Build the encounter-ordered candidate list: ally records first, then
/// the living enemies.
fn build_candidates(records: &Vec<AllyActionRecord>, enemies: &Vec<Actor>) -> (c: Vec<TurnAction>)
    requires
        forall|i: int| 0 <= i < enemies@.len() ==> (#[trigger] enemies@[i]).stats.speed.wf(),
    ensures
        c@ == spec_candidates(records@, enemies@),
{
    let mut c: Vec<TurnAction> = Vec::new();
    let mut i: usize = 0;
    while i < records.len()
        invariant
            i <= records@.len(),
            c@ == spec_ally_entries(records@.take(i as int)),
        decreases records@.len() - i,
    {
        let r = records[i];
        c.push(TurnAction { team: Team::Ally, speed: r.registered_speed, id_in_team: r.id_in_team });
        proof {
            assert(c@ =~= spec_ally_entries(records@.take(i + 1)));
        }
        i = i + 1;
    }
    proof {
        assert(records@.take(records@.len() as int) =~= records@);
        assert(spec_candidates(records@, enemies@) =~= spec_ally_entries(records@)
            + spec_enemy_entries(enemies@, 0));
    }
    let mut i: usize = 0;
    while i < enemies.len()
        invariant
            i <= enemies@.len(),
            forall|k: int| 0 <= k < enemies@.len() ==> (#[trigger] enemies@[k]).stats.speed.wf(),
            spec_candidates(records@, enemies@) =~= c@ + spec_enemy_entries(
                enemies@,
                i as int,
            ),
        decreases enemies@.len() - i,
    {
        let (current_hp, _) = enemies[i].hp.current_and_max();
        if current_hp > 0 {
            let entry = TurnAction {
                id_in_team: i,
                team: Team::Enemy,
                speed: enemies[i].stats.speed.multiplied(),
            };
            proof {
                assert(spec_enemy_entries(enemies@, i as int) =~= seq![
                    TurnAction {
                        id_in_team: i,
                        team: Team::Enemy,
                        speed: enemies@[i as int].stats.speed.spec_multiplied(),
                    },
                ] + spec_enemy_entries(enemies@, i + 1));
            }
            c.push(entry);
            proof {
                assert(spec_candidates(records@, enemies@) =~= c@ + spec_enemy_entries(
                    enemies@,
                    i + 1,
                ));
            }
        }
        i = i + 1;
    }
    proof {
        assert(spec_enemy_entries(enemies@, enemies@.len() as int) =~= Seq::<TurnAction>::empty());
        assert(c@ =~= spec_candidates(records@, enemies@));
    }
    c
}

/// Every entry of the enemy contribution names an enemy index and acts
/// at that enemy's live speed.
proof fn lemma_enemy_entries_props(enemies: Seq<Actor>, i: int)
    ensures
        forall|k: int|
            0 <= k < spec_enemy_entries(enemies, i).len() ==> {
                &&& (#[trigger] spec_enemy_entries(enemies, i)[k]).team is Enemy
                &&& spec_enemy_entries(enemies, i)[k].id_in_team < enemies.len()
            },
    decreases enemies.len() - i,
{
    if 0 <= i < enemies.len() {
        lemma_enemy_entries_props(enemies, i + 1);
    }
}

impl TurnPreparationState {
    /// Run the scheduler: consume the committed records and the living
    /// enemies into the ranked turn queue, then hand control to turn
    /// resolution. In any other macro state this is a no-op.
    pub fn update(scene: &mut BattleScene)
        requires
            old(scene).wf(),
        ensures
            final(scene).wf(),
            old(scene).state matches MacroBattleStates::TurnPreparation(_) ==> {
                &&& final(scene).characters == old(scene).characters
                &&& final(scene).enemies == old(scene).enemies
                &&& final(scene).allies_actions == old(scene).allies_actions
                &&& final(scene).turn_order@ == spec_schedule(
                    old(scene).allies_actions@,
                    old(scene).enemies@,
                )
                &&& final(scene).state == MacroBattleStates::TurnUnroll(
                    TurnUnrollState { sub_state: TurnSubState::NextAction },
                )
            },
            !(old(scene).state matches MacroBattleStates::TurnPreparation(_)) ==> *final(scene)
                == *old(scene),
    {
        match scene.state {
            MacroBattleStates::TurnPreparation(_) => {},
            _ => {
                return ;
            },
        }
        let cand = build_candidates(&scene.allies_actions, &scene.enemies);
        let ghost tagged = spec_tag(cand@);

        let mut sorted: Vec<(usize, TurnAction)> = Vec::new();
        let mut i: usize = 0;
        while i < cand.len()
            invariant
                i <= cand@.len(),
                sorted@ == spec_sort_ranked(spec_tag(cand@).take(i as int)),
            decreases cand@.len() - i,
        {
            let x: (usize, TurnAction) = (i, cand[i]);
            let j = find_insert_pos(&sorted, &x);
            proof {
                lemma_insert_ranked_splice(sorted@, x, j as int);
                let t = spec_tag(cand@).take(i + 1);
                assert(t.drop_last() =~= spec_tag(cand@).take(i as int));
                assert(t.last() == x);
            }
            sorted.insert(j, x);
            i = i + 1;
        }
        proof {
            assert(spec_tag(cand@).take(cand@.len() as int) =~= spec_tag(cand@));
        }

        let mut queue: Vec<TurnAction> = Vec::new();
        let mut k: usize = 0;
        while k < sorted.len()
            invariant
                k <= sorted@.len(),
                sorted@ == spec_sort_ranked(spec_tag(cand@)),
                cand@ == spec_candidates(scene.allies_actions@, scene.enemies@),
                queue@ == spec_strip(sorted@).take(k as int),
            decreases sorted@.len() - k,
        {
            queue.push(sorted[k].1);
            proof {
                assert(queue@ =~= spec_strip(sorted@).take(k + 1));
            }
            k = k + 1;
        }
        proof {
            assert(spec_strip(sorted@).take(sorted@.len() as int) =~= spec_strip(sorted@));
        }

        scene.turn_order = queue;
        scene.state = MacroBattleStates::TurnUnroll(TurnUnrollState::new());

        proof {
            let records = scene.allies_actions@;
            let enemies = scene.enemies@;
            let c = spec_candidates(records, enemies);
            lemma_enemy_entries_props(enemies, 0);
            assert forall|qi: int| 0 <= qi < scene.turn_order@.len() implies scene.queue_entry_wf(
                #[trigger] scene.turn_order@[qi],
            ) by {
                let sorted_seq = spec_sort_ranked(spec_tag(c));
                assert(scene.turn_order@[qi] == sorted_seq[qi].1);
                lemma_sort_ranked_membership(spec_tag(c), qi);
                let m = choose|m: int| 0 <= m < spec_tag(c).len() && spec_tag(c)[m]
                    == sorted_seq[qi];
                assert(scene.turn_order@[qi] == c[m]);
                if m < records.len() {
                    assert(c[m] == spec_ally_entries(records)[m]);
                    assert(c[m] == spec_ally_entry(records[m]));
                } else {
                    assert(c[m] == spec_enemy_entries(enemies, 0)[m - records.len()]);
                }
            }
        }
    }
}

} // verus!
