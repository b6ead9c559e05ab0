//! The two resource-meter disciplines: instant meters snap to their new
//! value at once, rolling meters migrate their visible value toward a
//! target over time.
//!
//! Time is counted in whole milliseconds. A rolling meter steps its
//! current value at a baseline rate of one unit per second, scaled by an
//! integer rate multiplier; progress short of a whole unit is retained in
//! a millisecond accumulator.

use vstd::prelude::*;

verus! {

/// Milliseconds of accumulated progress that amount to one whole unit
/// of meter movement at the baseline rate.
pub const MS_PER_UNIT: u64 = 1000;

/// A resource meter without a time component: writes take effect at once.
#[derive(Clone, Copy, Debug, PartialEq, Eq, Structural)]
pub struct InstantMeter {
    pub current_value: u16,
    pub max: u16,
}

impl InstantMeter {
    /// A meter's current value never exceeds its maximum.
    pub open spec fn wf(self) -> bool {
        self.current_value <= self.max
    }

    pub fn new(current_value: u16, max: u16) -> (m: InstantMeter)
        requires
            current_value <= max,
        ensures
            m == (InstantMeter { current_value, max }),
            m.wf(),
    {
        InstantMeter { current_value, max }
    }
}

/// A meter whose visible value migrates toward a target over time rather
/// than snapping to it.
#[derive(Clone, Copy, Debug, PartialEq, Eq, Structural)]
pub struct RollingMeter {
    pub current_value: u16,
    pub target_value: u16,
    pub max: u16,
    /// Scaled milliseconds of progress toward the next whole unit.
    pub accumulator: u64,
    /// Units stepped per second of elapsed time.
    pub rate_multiplier: u32,
}

impl RollingMeter {
    /// Current and target stay within the maximum, the accumulator holds
    /// strictly less than one whole unit of progress, and the meter moves
    /// at a positive but modest rate (so that scaling any admissible
    /// frame time cannot overflow the accumulator).
    pub open spec fn wf(self) -> bool {
        &&& self.current_value <= self.max
        &&& self.target_value <= self.max
        &&& self.accumulator < MS_PER_UNIT
        &&& 1 <= self.rate_multiplier <= 0x10000
    }

    /// How far the current value still is from the target.
    pub open spec fn distance(self) -> int {
        if self.target_value >= self.current_value {
            self.target_value - self.current_value
        } else {
            self.current_value - self.target_value
        }
    }

    /// The meter after `dt_ms` milliseconds have elapsed: the accumulator
    /// grows by the scaled time; each whole unit of accumulated progress
    /// moves the current value one step toward the target, clamping there
    /// on overshoot (which also resets the accumulator).
    pub open spec fn spec_update(self, dt_ms: u64) -> RollingMeter {
        if self.current_value == self.target_value {
            self
        } else {
            let total = self.accumulator + dt_ms * self.rate_multiplier;
            if total < MS_PER_UNIT {
                RollingMeter { accumulator: total as u64, ..self }
            } else {
                let steps = total / (MS_PER_UNIT as int);
                let rem = total % (MS_PER_UNIT as int);
                if steps >= self.distance() {
                    RollingMeter {
                        current_value: self.target_value,
                        accumulator: (if steps == self.distance() { rem } else { 0 }) as u64,
                        ..self
                    }
                } else if self.current_value < self.target_value {
                    RollingMeter {
                        current_value: (self.current_value + steps) as u16,
                        accumulator: rem as u64,
                        ..self
                    }
                } else {
                    RollingMeter {
                        current_value: (self.current_value - steps) as u16,
                        accumulator: rem as u64,
                        ..self
                    }
                }
            }
        }
    }

    pub fn new(current: u16, max: u16) -> (m: RollingMeter)
        requires
            current <= max,
        ensures
            m == (RollingMeter {
                current_value: current,
                target_value: current,
                max,
                accumulator: 0,
                rate_multiplier: 1,
            }),
            m.wf(),
    {
        RollingMeter {
            current_value: current,
            max,
            target_value: current,
            accumulator: 0,
            rate_multiplier: 1,
        }
    }

    /// Units of meter movement per second of elapsed time.
    pub fn current_rate(&self) -> (r: u32)
        ensures
            r == self.rate_multiplier,
    {
        self.rate_multiplier
    }

    /// Point the meter at a new goal value, clamped to the maximum; the
    /// visible value is untouched and will migrate there over time.
    pub fn set_target(&mut self, value: u16)
        requires
            old(self).wf(),
        ensures
            final(self).target_value == if value <= old(self).max { value as int } else {
                old(self).max as int
            },
            final(self).current_value == old(self).current_value,
            final(self).max == old(self).max,
            final(self).accumulator == old(self).accumulator,
            final(self).rate_multiplier == old(self).rate_multiplier,
            final(self).wf(),
    {
        if value <= self.max {
            self.target_value = value;
        } else {
            self.target_value = self.max;
        }
    }

    /// Advance the meter by `dt_ms` milliseconds of elapsed time.
    pub fn update(&mut self, dt_ms: u64)
        requires
            old(self).wf(),
            old(self).accumulator + dt_ms * old(self).rate_multiplier <= u64::MAX,
        ensures
            *final(self) == old(self).spec_update(dt_ms),
            final(self).wf(),
    {
        if self.current_value == self.target_value {
            return;
        }

        let scaled: u64 = dt_ms * (self.rate_multiplier as u64);
        let total: u64 = self.accumulator + scaled;
        if total < MS_PER_UNIT {
            self.accumulator = total;
            return;
        }

        let steps: u64 = total / MS_PER_UNIT;
        let rem: u64 = total % MS_PER_UNIT;
        let distance: u64 = if self.target_value >= self.current_value {
            (self.target_value - self.current_value) as u64
        } else {
            (self.current_value - self.target_value) as u64
        };
        if steps >= distance {
            self.current_value = self.target_value;
            self.accumulator = if steps == distance { rem } else { 0 };
        } else {
            if self.current_value < self.target_value {
                self.current_value = self.current_value + (steps as u16);
            } else {
                self.current_value = self.current_value - (steps as u16);
            }
            self.accumulator = rem;
        }
    }
}

/// A rolling meter never overshoots: one update moves the current value
/// only toward the target, never past it, and the distance left never
/// grows.
pub proof fn lemma_update_no_overshoot(m: RollingMeter, dt_ms: u64)
    requires
        m.wf(),
        m.accumulator + dt_ms * m.rate_multiplier <= u64::MAX,
    ensures
        m.spec_update(dt_ms).target_value == m.target_value,
        m.spec_update(dt_ms).max == m.max,
        m.spec_update(dt_ms).distance() <= m.distance(),
        m.current_value <= m.target_value ==> m.current_value <= m.spec_update(dt_ms).current_value
            <= m.target_value,
        m.current_value >= m.target_value ==> m.current_value >= m.spec_update(dt_ms).current_value
            >= m.target_value,
        m.spec_update(dt_ms).wf(),
{
}

/// A rolling meter makes progress: whenever the current value has not
/// reached the target and at least one whole unit of progress has been
/// accumulated, an update strictly shrinks the distance left.
pub proof fn lemma_update_progress(m: RollingMeter, dt_ms: u64)
    requires
        m.wf(),
        m.accumulator + dt_ms * m.rate_multiplier <= u64::MAX,
        m.current_value != m.target_value,
        m.accumulator + dt_ms * m.rate_multiplier >= MS_PER_UNIT,
    ensures
        m.spec_update(dt_ms).distance() < m.distance(),
{
    let total = m.accumulator + dt_ms * m.rate_multiplier;
    let steps = total / (MS_PER_UNIT as int);
    assert(steps >= 1) by (nonlinear_arith)
        requires
            total >= MS_PER_UNIT,
            steps == total / (MS_PER_UNIT as int),
    ;
}

/// A rolling meter converges: once enough time has elapsed to cover the
/// whole distance left, a single update lands the current value exactly
/// on the target.
pub proof fn lemma_update_reaches_target(m: RollingMeter, dt_ms: u64)
    requires
        m.wf(),
        m.accumulator + dt_ms * m.rate_multiplier <= u64::MAX,
        m.accumulator + dt_ms * m.rate_multiplier >= MS_PER_UNIT * m.distance(),
    ensures
        m.spec_update(dt_ms).current_value == m.target_value,
{
    if m.current_value != m.target_value {
        let total = m.accumulator + dt_ms * m.rate_multiplier;
        let steps = total / (MS_PER_UNIT as int);
        assert(steps >= m.distance()) by (nonlinear_arith)
            requires
                total >= MS_PER_UNIT * m.distance(),
                steps == total / (MS_PER_UNIT as int),
        ;
    }
}

/// One of the two meter disciplines, as held by an actor: enemies take
/// changes instantly, allies watch their values roll.
#[derive(Clone, Copy, Debug, PartialEq, Eq, Structural)]
pub enum Meter {
    Instant(InstantMeter),
    Rolling(RollingMeter),
}

impl Meter {
    pub open spec fn wf(self) -> bool {
        match self {
            Meter::Instant(m) => m.wf(),
            Meter::Rolling(m) => m.wf(),
        }
    }

    /// The visible value of the meter.
    pub open spec fn spec_current(self) -> u16 {
        match self {
            Meter::Instant(m) => m.current_value,
            Meter::Rolling(m) => m.current_value,
        }
    }

    /// The value the meter is headed for: for an instant meter that is the
    /// visible value itself.
    pub open spec fn spec_target(self) -> u16 {
        match self {
            Meter::Instant(m) => m.current_value,
            Meter::Rolling(m) => m.target_value,
        }
    }

    pub open spec fn spec_max(self) -> u16 {
        match self {
            Meter::Instant(m) => m.max,
            Meter::Rolling(m) => m.max,
        }
    }

    /// A meter is depleted when its visible value has reached zero.
    pub open spec fn is_depleted(self) -> bool {
        self.spec_current() == 0
    }

    pub fn current_and_max(&self) -> (r: (u16, u16))
        ensures
            r.0 == self.spec_current(),
            r.1 == self.spec_max(),
    {
        match self {
            Meter::Rolling(m) => (m.current_value, m.max),
            Meter::Instant(m) => (m.current_value, m.max),
        }
    }

    /// The new headed-for value after shifting by `delta`, clamped to
    /// `[0, max]`.
    pub open spec fn spec_shifted_target(self, delta: int) -> u16 {
        let moved = self.spec_target() + delta;
        if moved < 0 {
            0 as u16
        } else if moved > self.spec_max() {
            self.spec_max()
        } else {
            moved as u16
        }
    }

    /// The meter after shifting its headed-for value by `delta`: an
    /// instant meter takes the change at once, a rolling meter only
    /// re-aims its target.
    pub open spec fn spec_apply_delta(self, delta: int) -> Meter {
        match self {
            Meter::Instant(m) => Meter::Instant(
                InstantMeter { current_value: self.spec_shifted_target(delta), max: m.max },
            ),
            Meter::Rolling(m) => Meter::Rolling(
                RollingMeter { target_value: self.spec_shifted_target(delta), ..m },
            ),
        }
    }

    /// The meter after taking `amount` points of damage: the headed-for
    /// value drops by that much, clamping at zero.
    pub open spec fn spec_hit(self, amount: u16) -> Meter {
        self.spec_apply_delta(-(amount as int))
    }

    /// Shift the value the meter is headed for by `delta`, clamped to
    /// `[0, max]`. An instant meter takes the change at once; a rolling
    /// meter only re-aims its target.
    pub fn apply_delta(&mut self, delta: i32)
        requires
            old(self).wf(),
        ensures
            *final(self) == old(self).spec_apply_delta(delta as int),
            final(self).wf(),
    {
        match self {
            Meter::Instant(m) => {
                let moved: i64 = (m.current_value as i64) + (delta as i64);
                if moved < 0 {
                    m.current_value = 0;
                } else if moved > (m.max as i64) {
                    m.current_value = m.max;
                } else {
                    m.current_value = moved as u16;
                }
            },
            Meter::Rolling(m) => {
                let moved: i64 = (m.target_value as i64) + (delta as i64);
                if moved < 0 {
                    m.target_value = 0;
                } else if moved > (m.max as i64) {
                    m.target_value = m.max;
                } else {
                    m.target_value = moved as u16;
                }
            },
        }
    }

    /// Take `amount` points of damage: the headed-for value drops by that
    /// much, clamping at zero.
    pub fn hit(&mut self, amount: u16)
        requires
            old(self).wf(),
        ensures
            *final(self) == old(self).spec_hit(amount),
            final(self).wf(),
            final(self).spec_target() == if amount <= old(self).spec_target() {
                old(self).spec_target() - amount
            } else {
                0
            },
    {
        self.apply_delta(-(amount as i32))
    }
}

} // verus!
