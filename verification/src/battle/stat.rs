//! Stats: a base value with a bounded modifier, a fixed multiplier table,
//! and the damage formula for physical strikes.
//!
//! The multiplier table maps a modifier in `[-3, 3]` to a factor of
//! `{1/8, 2/8, 4/8, 8/8, 12/8, 14/8, 16/8}`; it is held here in eighths
//! so every derived value is exact integer arithmetic.

use vstd::prelude::*;

verus! {

/// The largest base value for which a buff's signed delta in derived
/// value is guaranteed to fit in an `i16`.
pub const STAT_BASE_LIMIT: u16 = 16383;

#[derive(Clone, Copy, Debug, PartialEq, Eq, Structural)]
pub struct Stat {
    pub base: u16,
    pub modifier: i16,
}

/// The multiplier the table assigns to a modifier, in eighths.
pub open spec fn multiplier_eighths(modifier: int) -> int {
    if modifier == -3 {
        1
    } else if modifier == -2 {
        2
    } else if modifier == -1 {
        4
    } else if modifier == 0 {
        8
    } else if modifier == 1 {
        12
    } else if modifier == 2 {
        14
    } else {
        16
    }
}

/// A modifier shifted by `levels` and clamped back into the table's range.
pub open spec fn buffed_modifier(modifier: int, levels: int) -> int {
    let moved = modifier + levels;
    if moved < -3 {
        -3
    } else if moved > 3 {
        3
    } else {
        moved
    }
}

impl Stat {
    /// The modifier stays within the multiplier table's range.
    pub open spec fn wf(self) -> bool {
        -3 <= self.modifier <= 3
    }

    /// The derived value: the base scaled by the table's multiplier,
    /// truncated, and saturated at the `u16` limit.
    pub open spec fn spec_multiplied(self) -> u16 {
        let scaled = self.base * multiplier_eighths(self.modifier as int) / 8;
        if scaled > u16::MAX {
            u16::MAX as u16
        } else {
            scaled as u16
        }
    }

    pub fn new(base: u16) -> (s: Stat)
        ensures
            s == (Stat { base, modifier: 0 as i16 }),
            s.wf(),
    {
        Stat { base, modifier: 0 }
    }

    pub fn multiplied(&self) -> (r: u16)
        requires
            self.wf(),
        ensures
            r == self.spec_multiplied(),
    {
        let eighths: u32 = get_stat_multiplier(self.modifier) as u32;
        let scaled: u32 = (self.base as u32) * eighths / 8;
        if scaled > (u16::MAX as u32) {
            u16::MAX
        } else {
            scaled as u16
        }
    }

    /// Shift the modifier by `levels`, clamped to the table's range, and
    /// return the signed change in the derived value.
    pub fn buff(&mut self, levels: i16) -> (delta: i16)
        requires
            old(self).wf(),
            old(self).base <= STAT_BASE_LIMIT,
        ensures
            final(self).base == old(self).base,
            final(self).modifier == buffed_modifier(old(self).modifier as int, levels as int),
            final(self).wf(),
            delta == final(self).spec_multiplied() - old(self).spec_multiplied(),
    {
        let current_value: u16 = self.multiplied();
        let moved: i32 = (self.modifier as i32) + (levels as i32);
        self.modifier = if moved < -3 {
            -3
        } else if moved > 3 {
            3
        } else {
            moved as i16
        };
        let new_value: u16 = self.multiplied();
        proof {
            lemma_multiplied_fits(*old(self));
            lemma_multiplied_fits(*self);
        }
        (new_value as i16) - (current_value as i16)
    }
}

/// With the base held under `STAT_BASE_LIMIT`, every derived value fits
/// comfortably below the signed 16-bit limit, so buff deltas are exact.
proof fn lemma_multiplied_fits(s: Stat)
    requires
        s.base <= STAT_BASE_LIMIT,
    ensures
        s.spec_multiplied() <= 2 * STAT_BASE_LIMIT,
{
    assert(s.base * multiplier_eighths(s.modifier as int) / 8 <= 2 * STAT_BASE_LIMIT)
        by (nonlinear_arith)
        requires
            s.base <= STAT_BASE_LIMIT,
            1 <= multiplier_eighths(s.modifier as int) <= 16,
    ;
}

/// Buffing is inverse-consistent: shifting a modifier by `levels` and
/// then by `-levels` restores it exactly, provided the first shift was
/// not clamped.
pub proof fn lemma_buff_inverse(modifier: int, levels: int)
    requires
        -3 <= modifier <= 3,
        -3 <= modifier + levels <= 3,
    ensures
        buffed_modifier(buffed_modifier(modifier, levels), -levels) == modifier,
{
}

/// The table's multiplier, in eighths of the base value.
fn get_stat_multiplier(modifier: i16) -> (eighths: u16)
    requires
        -3 <= modifier <= 3,
    ensures
        eighths == multiplier_eighths(modifier as int),
{
    if modifier == -3 {
        1
    } else if modifier == -2 {
        2
    } else if modifier == -1 {
        4
    } else if modifier == 0 {
        8
    } else if modifier == 1 {
        12
    } else if modifier == 2 {
        14
    } else {
        16
    }
}

/// The stat bundle every actor carries.
#[derive(Clone, Copy, Debug, PartialEq, Eq, Structural)]
pub struct ActorStats {
    pub offense: Stat,
    pub defense: Stat,
    pub speed: Stat,
    pub iq: Stat,
}

impl ActorStats {
    pub open spec fn wf(self) -> bool {
        &&& self.offense.wf()
        &&& self.defense.wf()
        &&& self.speed.wf()
        &&& self.iq.wf()
    }
}

/// The damage a strike deals for a given random roll: the attack value
/// less the defense (clamped at zero), scaled by `roll` percent,
/// truncated, and saturated at the `u16` limit.
pub open spec fn spec_damage(offense: u16, attack_level: u16, defense: u16, roll: int) -> u16 {
    let base = if attack_level * offense > defense {
        attack_level * offense - defense
    } else {
        0
    };
    let scaled = base * roll / 100;
    if scaled > u16::MAX {
        u16::MAX as u16
    } else {
        scaled as u16
    }
}

/// The deterministic part of the damage formula, taking the random roll
/// as an argument.
pub fn damage_from_roll(offense: u16, attack_level: u16, defense: u16, roll: u16) -> (d: u16)
    ensures
        d == spec_damage(offense, attack_level, defense, roll as int),
{
    proof {
        assert(attack_level * offense <= 0xffff * 0xffff) by (nonlinear_arith)
            requires
                attack_level <= 0xffff,
                offense <= 0xffff,
        ;
        assert(attack_level * offense * roll <= 0xffff * 0xffff * 0xffff) by (nonlinear_arith)
            requires
                attack_level * offense <= 0xffff * 0xffff,
                roll <= 0xffff,
        ;
    }
    let attack: u64 = (attack_level as u64) * (offense as u64);
    let base: u64 = if attack > (defense as u64) {
        attack - (defense as u64)
    } else {
        0
    };
    proof {
        assert(base * roll <= attack_level * offense * roll) by (nonlinear_arith)
            requires
                base <= attack_level * offense,
                roll >= 0,
        ;
    }
    let scaled: u64 = base * (roll as u64) / 100;
    if scaled > (u16::MAX as u64) {
        u16::MAX
    } else {
        scaled as u16
    }
}

/// Relies on rand::thread_rng and rand::Rng::gen_range: `gen_range`
/// draws a value uniformly from the given half-open range, and the range
/// here is never empty.
#[verifier::external_body]
fn roll_damage_percent() -> (r: u16)
    ensures
        75 <= r < 125,
{
    rand::Rng::gen_range(&mut rand::thread_rng(), 75u16..125u16)
}

/// Roll a strike's damage: the deterministic formula under a random
/// multiplier between 75 and 125 percent.
pub fn damage(offense: u16, attack_level: u16, defense: u16) -> (d: u16)
    ensures
        exists|roll: int|
            75 <= roll < 125 && d == spec_damage(offense, attack_level, defense, roll),
{
    let roll: u16 = roll_damage_percent();
    let d = damage_from_roll(offense, attack_level, defense, roll);
    proof {
        assert(d == spec_damage(offense, attack_level, defense, roll as int));
    }
    d
}

} // verus!
