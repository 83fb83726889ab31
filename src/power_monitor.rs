use vstd::prelude::*;
use crate::rounding::{round_div, round_div_i128, lemma_round_div_bounds};
use crate::sensors::PowerReading;

verus! {

/// Number of ticks (one reading each) in an averaging window.
pub const WINDOW_TICKS: u32 = 30;

/// Sum of the currents of a sequence of readings, in milliamperes.
pub open spec fn current_sum(s: Seq<PowerReading>) -> int
    decreases s.len(),
{
    if s.len() == 0 {
        0
    } else {
        current_sum(s.drop_last()) + s.last().current_ma
    }
}

/// Sum of the powers of a sequence of readings, in milliwatts.
pub open spec fn power_sum(s: Seq<PowerReading>) -> int
    decreases s.len(),
{
    if s.len() == 0 {
        0
    } else {
        power_sum(s.drop_last()) + s.last().power_mw
    }
}

/// Mean of `sum` over `n` values, rounded; 0 for no values.
pub open spec fn mean_or_zero(sum: int, n: int) -> int {
    if n == 0 {
        0
    } else {
        round_div(sum, n)
    }
}

/// Whether the exact mean current of the readings exceeds the limit (the mean of no
/// readings is 0).
pub open spec fn mean_current_exceeds(s: Seq<PowerReading>, limit_ma: int) -> bool {
    if s.len() == 0 {
        0 > limit_ma
    } else {
        current_sum(s) > limit_ma * s.len()
    }
}

proof fn lemma_power_sum_bounds(s: Seq<PowerReading>)
    ensures
        s.len() * (i32::MIN as int) <= power_sum(s) <= s.len() * (i32::MAX as int),
    decreases s.len(),
{
    if s.len() > 0 {
        lemma_power_sum_bounds(s.drop_last());
    }
}

/// A window in which every reading's current is above the limit has a mean above it.
pub proof fn lemma_window_above_limit(s: Seq<PowerReading>, limit_ma: int)
    requires
        s.len() > 0,
        forall|i: int| 0 <= i < s.len() ==> s[i].current_ma > limit_ma,
    ensures
        mean_current_exceeds(s, limit_ma),
    decreases s.len(),
{
    if s.len() > 1 {
        let t = s.drop_last();
        assert forall|i: int| 0 <= i < t.len() implies t[i].current_ma > limit_ma by {
            assert(t[i] == s[i]);
        }
        lemma_window_above_limit(t, limit_ma);
        assert(limit_ma * s.len() == limit_ma * t.len() + limit_ma) by (nonlinear_arith)
            requires s.len() == t.len() + 1;
        assert(s.last() == s[s.len() - 1]);
        assert(current_sum(s) == current_sum(t) + s.last().current_ma);
    } else {
        assert(s.drop_last().len() == 0);
        assert(current_sum(s) == current_sum(s.drop_last()) + s.last().current_ma);
        assert(s.last() == s[0]);
    }
}

/// What one tick of the monitor decided.
#[derive(Clone, Copy, Debug, PartialEq, Eq, Structural)]
pub struct TickOutcome {
    /// The window was evaluated (and then cleared) on this tick.
    pub evaluated: bool,
    /// The evaluated window's mean current exceeded the limit.
    pub over_limit: bool,
}

/// The rolling window of power readings of the monitor loop.
pub struct PowerMonitor {
    readings_vec: Vec<PowerReading>,
    ticks: u32,
}

impl PowerMonitor {
    pub closed spec fn readings(&self) -> Seq<PowerReading> {
        self.readings_vec@
    }

    /// Ticks since the window was last evaluated.
    pub closed spec fn ticks(&self) -> int {
        self.ticks as int
    }

    pub open spec fn wf(&self) -> bool {
        0 <= self.readings().len() <= self.ticks() <= WINDOW_TICKS
    }

    pub fn new() -> (r: Self)
        ensures
            r.wf(),
            r.readings() == Seq::<PowerReading>::empty(),
            r.ticks() == 0,
    {
        PowerMonitor { readings_vec: Vec::new(), ticks: 0 }
    }

    pub fn add_reading(&mut self, reading: PowerReading)
        ensures
            final(self).readings() == old(self).readings().push(reading),
            final(self).ticks() == old(self).ticks(),
    {
        self.readings_vec.push(reading);
    }

    pub fn get_readings(&self) -> (r: &Vec<PowerReading>)
        ensures
            r@ == self.readings(),
    {
        &self.readings_vec
    }

    pub fn clear_readings(&mut self)
        ensures
            final(self).readings() == Seq::<PowerReading>::empty(),
            final(self).ticks() == old(self).ticks(),
    {
        self.readings_vec.clear();
    }

    /// Mean power of the window in milliwatts, rounded; 0 when empty.
    pub fn get_average_power(&self) -> (r: i32)
        ensures
            r == mean_or_zero(power_sum(self.readings()), self.readings().len() as int),
    {
        let n = self.readings_vec.len();
        if n == 0 {
            return 0;
        }
        let mut sum: i128 = 0;
        let mut i: usize = 0;
        while i < n
            invariant
                0 <= i <= n,
                n == self.readings_vec.len(),
                sum == power_sum(self.readings_vec@.subrange(0, i as int)),
                i * (i32::MIN as int) <= sum <= i * (i32::MAX as int),
            decreases n - i,
        {
            proof {
                assert(self.readings_vec@.subrange(0, i + 1).drop_last()
                    =~= self.readings_vec@.subrange(0, i as int));
            }
            sum = sum + self.readings_vec[i].power_mw as i128;
            i = i + 1;
        }
        proof {
            assert(self.readings_vec@.subrange(0, n as int) =~= self.readings_vec@);
            lemma_power_sum_bounds(self.readings_vec@);
            lemma_round_div_bounds(sum as int, n as int, i32::MIN as int, i32::MAX as int);
        }
        round_div_i128(sum, n as i128) as i32
    }

    fn current_total(&self) -> (r: i128)
        ensures
            r == current_sum(self.readings()),
            self.readings().len() * (i32::MIN as int) <= r <= self.readings().len() * (i32::MAX as int),
    {
        let n = self.readings_vec.len();
        let mut sum: i128 = 0;
        let mut i: usize = 0;
        while i < n
            invariant
                0 <= i <= n,
                n == self.readings_vec.len(),
                sum == current_sum(self.readings_vec@.subrange(0, i as int)),
                i * (i32::MIN as int) <= sum <= i * (i32::MAX as int),
            decreases n - i,
        {
            proof {
                assert(self.readings_vec@.subrange(0, i + 1).drop_last()
                    =~= self.readings_vec@.subrange(0, i as int));
            }
            sum = sum + self.readings_vec[i].current_ma as i128;
            i = i + 1;
        }
        proof {
            assert(self.readings_vec@.subrange(0, n as int) =~= self.readings_vec@);
        }
        sum
    }

    /// Mean current of the window in milliamperes, rounded; 0 when empty.
    pub fn get_average_current(&self) -> (r: i32)
        ensures
            r == mean_or_zero(current_sum(self.readings()), self.readings().len() as int),
    {
        let n = self.readings_vec.len();
        if n == 0 {
            return 0;
        }
        let sum = self.current_total();
        proof {
            lemma_round_div_bounds(sum as int, n as int, i32::MIN as int, i32::MAX as int);
        }
        round_div_i128(sum, n as i128) as i32
    }

    /// Whether the exact mean current of the window is above the limit.
    pub fn exceeds_current_limit(&self, limit_ma: i32) -> (r: bool)
        ensures
            r == mean_current_exceeds(self.readings(), limit_ma as int),
    {
        let n = self.readings_vec.len();
        if n == 0 {
            return 0 > limit_ma;
        }
        let sum = self.current_total();
        proof {
            assert((i32::MIN as int) * n <= (limit_ma as int) * n <= (i32::MAX as int) * n)
                by (nonlinear_arith) requires i32::MIN <= limit_ma <= i32::MAX, n >= 0;
        }
        sum > (limit_ma as i128) * (n as i128)
    }

    /// One tick of the monitor loop. Every `WINDOW_TICKS` ticks the window is first
    /// evaluated against the current limit and cleared; then the tick's reading, if the
    /// sensor gave one, joins the window.
    pub fn on_tick(&mut self, reading: Option<PowerReading>, limit_ma: i32) -> (r: TickOutcome)
        requires
            old(self).wf(),
        ensures
            final(self).wf(),
            r.evaluated == (old(self).ticks() == WINDOW_TICKS),
            r.over_limit == (r.evaluated && mean_current_exceeds(old(self).readings(), limit_ma as int)),
            final(self).ticks() == (if r.evaluated { 0 } else { old(self).ticks() }) + 1,
            final(self).readings() == ({
                let kept = if r.evaluated { Seq::<PowerReading>::empty() } else { old(self).readings() };
                match reading {
                    Some(x) => kept.push(x),
                    None => kept,
                }
            }),
    {
        let mut outcome = TickOutcome { evaluated: false, over_limit: false };
        if self.ticks == WINDOW_TICKS {
            let over = self.exceeds_current_limit(limit_ma);
            outcome = TickOutcome { evaluated: true, over_limit: over };
            self.readings_vec.clear();
            self.ticks = 0;
        }
        match reading {
            Some(x) => self.readings_vec.push(x),
            None => {},
        }
        self.ticks = self.ticks + 1;
        outcome
    }
}

} // verus!
