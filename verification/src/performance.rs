//! Performance measurement records.
//!
//! A performance record is a read-only snapshot of the durations, in
//! nanoseconds, that the engine measured for a graph or a node. It is
//! zero-valued before the first run. The engine owns the clock; this layer
//! only folds each reported measurement into the record.

use vstd::prelude::*;

verus! {

/// The performance measurement structure. All durations are nanoseconds.
#[derive(Debug, Eq, PartialEq, Structural, Copy, Clone)]
pub struct Performance {
    /// The last measurement.
    pub tmp: u64,
    /// The first measurement in the set.
    pub beg: u64,
    /// The last measurement in the set.
    pub end: u64,
    /// The summation of all measurements, saturating at the maximum.
    pub sum: u64,
    /// The average of all measurements.
    pub avg: u64,
    /// The minimum of all measurements.
    pub min: u64,
    /// The number of measurements.
    pub num: u64,
    /// The maximum of all measurements.
    pub max: u64,
}

/// Addition that stops at the largest representable value.
pub open spec fn saturating_add_u64(a: u64, b: u64) -> u64 {
    if a + b > u64::MAX {
        u64::MAX
    } else {
        (a + b) as u64
    }
}

/// Whether a record holds no measurements: every field zero.
pub open spec fn performance_is_zero(p: Performance) -> bool {
    p.tmp == 0 && p.beg == 0 && p.end == 0 && p.sum == 0 && p.avg == 0 && p.min == 0 && p.num == 0
        && p.max == 0
}

/// The record that results from folding one measurement into a record.
pub open spec fn performance_recorded(p: Performance, elapsed: u64) -> Performance {
    let num = saturating_add_u64(p.num, 1);
    let sum = saturating_add_u64(p.sum, elapsed);
    Performance {
        tmp: elapsed,
        beg: if p.num == 0 {
            elapsed
        } else {
            p.beg
        },
        end: elapsed,
        sum: sum,
        avg: (sum / num) as u64,
        min: if p.num == 0 || elapsed < p.min {
            elapsed
        } else {
            p.min
        },
        num: num,
        max: if p.num == 0 || elapsed > p.max {
            elapsed
        } else {
            p.max
        },
    }
}

impl Performance {
    /// The record before any measurement: every field zero.
    pub fn zero() -> (r: Performance)
        ensures
            performance_is_zero(r),
    {
        Performance { tmp: 0, beg: 0, end: 0, sum: 0, avg: 0, min: 0, num: 0, max: 0 }
    }

    /// Whether this record holds no measurements.
    pub fn is_zero(&self) -> (r: bool)
        ensures
            r <==> performance_is_zero(*self),
    {
        self.tmp == 0 && self.beg == 0 && self.end == 0 && self.sum == 0 && self.avg == 0
            && self.min == 0 && self.num == 0 && self.max == 0
    }

    /// Folds one measurement into this record: it becomes the last
    /// measurement, the first if none came before it, and the count, sum,
    /// average, minimum and maximum follow.
    pub fn record(&mut self, elapsed: u64)
        ensures
            *final(self) == performance_recorded(*old(self), elapsed),
    {
        let num: u64 = if self.num < u64::MAX {
            self.num + 1
        } else {
            u64::MAX
        };
        let sum: u64 = if self.sum <= u64::MAX - elapsed {
            self.sum + elapsed
        } else {
            u64::MAX
        };
        if self.num == 0 {
            self.beg = elapsed;
            self.min = elapsed;
            self.max = elapsed;
        } else {
            if elapsed < self.min {
                self.min = elapsed;
            }
            if elapsed > self.max {
                self.max = elapsed;
            }
        }
        self.tmp = elapsed;
        self.end = elapsed;
        self.sum = sum;
        self.avg = sum / num;
        self.num = num;
    }
}

impl Default for Performance {
    /// The record before any measurement, as [`Performance::zero`] gives it.
    fn default() -> (r: Performance)
        ensures
            performance_is_zero(r),
    {
        Performance::zero()
    }
}

} // verus!
