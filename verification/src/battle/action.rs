//! Action execution: the basic strike, its cast timer, and the damage
//! application over a range of targets.

use vstd::prelude::*;

use crate::battle::stat::{spec_damage, damage, ActorStats};
use crate::battle::turn::{SubStateTransition, TurnSubState};
use crate::battle::Actor;
use crate::timer::Timer;

verus! {

/// The fixed cast duration of a strike, in milliseconds.
pub const STRIKE_CAST_MS: u64 = 1000;

/// An actor after taking `dmg` points of damage: only the HP meter's
/// headed-for value changes.
pub open spec fn spec_after_hit(a: Actor, dmg: u16) -> Actor {
    Actor { name: a.name, hp: a.hp.spec_hit(dmg), pp: a.pp, stats: a.stats }
}

/// Whether `after` is `before` struck with `offense` at `attack_level`:
/// damage under some admissible random roll, against the target's live
/// defense, applied exactly once.
pub open spec fn struck(before: Actor, after: Actor, offense: u16, attack_level: u16) -> bool {
    exists|roll: int|
        75 <= roll < 125 && after == spec_after_hit(
            before,
            spec_damage(offense, attack_level, before.stats.defense.spec_multiplied(), roll),
        )
}

/// Strike every target in `[lo, hi)` once: each takes the damage formula
/// against its own live defense, under its own random roll.
pub fn physical_damage(offense: u16, attack_level: u16, targets: &mut Vec<Actor>, lo: usize, hi: usize)
    requires
        lo <= hi <= old(targets).len(),
        forall|i: int| lo <= i < hi ==> (#[trigger] old(targets)@[i]).wf(),
    ensures
        final(targets)@.len() == old(targets)@.len(),
        forall|i: int|
            0 <= i < old(targets)@.len() && !(lo <= i < hi) ==> final(targets)@[i] == old(
                targets,
            )@[i],
        forall|i: int|
            lo <= i < hi ==> struck(old(targets)@[i], #[trigger] final(targets)@[i], offense, attack_level),
        forall|i: int| lo <= i < hi ==> (#[trigger] final(targets)@[i]).wf(),
{
    let mut i: usize = lo;
    while i < hi
        invariant
            lo <= i <= hi <= targets.len(),
            targets@.len() == old(targets)@.len(),
            forall|j: int| lo <= j < hi ==> (#[trigger] old(targets)@[j]).wf(),
            forall|j: int|
                0 <= j < targets@.len() && !(lo <= j < i) ==> targets@[j] == old(targets)@[j],
            forall|j: int|
                lo <= j < i ==> struck(old(targets)@[j], #[trigger] targets@[j], offense, attack_level),
            forall|j: int| lo <= j < i ==> (#[trigger] targets@[j]).wf(),
        decreases hi - i,
    {
        let defense: u16 = targets[i].stats.defense.multiplied();
        let dmg: u16 = damage(offense, attack_level, defense);
        targets[i].hp.hit(dmg);
        i = i + 1;
    }
}

/// The basic strike: a fixed wind-up, then damage to every target, then
/// a signal to move resolution onward. A cancelled strike (the caster
/// fell during the wind-up) produces no effect.
#[derive(Clone, Copy, Debug, PartialEq, Eq, Structural)]
pub struct Bash {
    pub time: Timer,
    pub cancelled: bool,
}

impl Bash {
    pub fn new() -> (b: Bash)
        ensures
            b.time.remaining_ms == STRIKE_CAST_MS,
            !b.cancelled,
    {
        Bash { time: Timer::new(STRIKE_CAST_MS), cancelled: false }
    }

    /// Abort the strike without producing an effect.
    pub fn cancel(&mut self)
        ensures
            final(self).cancelled,
            final(self).time == old(self).time,
    {
        self.cancelled = true;
    }

    /// Run the strike for one frame: a cancelled strike steps resolution
    /// onward with no effect; an uncancelled one waits out its cast
    /// timer, then strikes every target in `[lo, hi)` exactly once.
    pub fn go(
        &mut self,
        caster_stats: &ActorStats,
        targets: &mut Vec<Actor>,
        lo: usize,
        hi: usize,
        dt_ms: u64,
    ) -> (t: SubStateTransition)
        requires
            caster_stats.wf(),
            lo <= hi <= old(targets).len(),
            forall|i: int| lo <= i < hi ==> (#[trigger] old(targets)@[i]).wf(),
        ensures
            final(self).cancelled == old(self).cancelled,
            old(self).cancelled ==> {
                &&& t == SubStateTransition::NextSubState(TurnSubState::NextAction)
                &&& *final(targets) == *old(targets)
                &&& *final(self) == *old(self)
            },
            !old(self).cancelled && old(self).time.remaining_ms > dt_ms ==> {
                &&& t == SubStateTransition::Stay
                &&& *final(targets) == *old(targets)
                &&& final(self).time.remaining_ms == old(self).time.remaining_ms - dt_ms
            },
            !old(self).cancelled && old(self).time.remaining_ms <= dt_ms ==> {
                &&& t == SubStateTransition::NextSubState(TurnSubState::NextAction)
                &&& final(self).time.remaining_ms == 0
                &&& final(targets)@.len() == old(targets)@.len()
                &&& forall|i: int|
                    0 <= i < old(targets)@.len() && !(lo <= i < hi) ==> final(targets)@[i] == old(
                        targets,
                    )@[i]
                &&& forall|i: int|
                    lo <= i < hi ==> struck(
                        old(targets)@[i],
                        #[trigger] final(targets)@[i],
                        caster_stats.offense.spec_multiplied(),
                        1,
                    )
                &&& forall|i: int| lo <= i < hi ==> (#[trigger] final(targets)@[i]).wf()
            },
    {
        if self.cancelled {
            return SubStateTransition::NextSubState(TurnSubState::NextAction);
        }
        self.time.tick(dt_ms);
        if !self.time.done() {
            return SubStateTransition::Stay;
        }

        physical_damage(caster_stats.offense.multiplied(), 1, targets, lo, hi);
        SubStateTransition::NextSubState(TurnSubState::NextAction)
    }
}

} // verus!
