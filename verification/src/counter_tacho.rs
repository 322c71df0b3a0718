//! Estimating how fast a shared-memory counter advances: samples of the
//! counter, each with the time it was taken, are fed to a tachometer that keeps
//! the running average of the time per count.
//!
//! Times are in microseconds; a rate is in hertz.

use vstd::prelude::*;

verus! {

/// Where the ULP blinky firmware keeps its counter, as the HP core sees it.
pub const ADDRESS: usize = 0x5000_1000;

/// Where the ULP blinky firmware keeps its debug word, as the HP core sees it.
pub const DEBUG_ADDRESS: usize = 0x5000_1004;

/// A counter value and the time (microseconds since boot) it was read.
#[derive(Clone, Copy, Debug, PartialEq, Eq, Structural)]
pub struct Sample {
    pub count: u32,
    pub timestamp_us: u64,
}

impl Sample {
    /// A sample of `count` taken at `timestamp_us`.
    pub fn new(count: u32, timestamp_us: u64) -> (r: Sample)
        ensures
            r.count == count,
            r.timestamp_us == timestamp_us,
    {
        Sample { count, timestamp_us }
    }
}

/// Running average of the time per count of a counter.
#[derive(Clone, Copy, Debug, PartialEq, Eq, Structural)]
pub struct SampleTachometer {
    /// The last sample that was kept.
    pub last_sample: Option<Sample>,
    /// Number of per-count periods summed.
    pub period_samples: u64,
    /// Sum of the per-count periods, in microseconds.
    pub period_sum: u64,
    /// A sample was kept since the flag was last cleared.
    pub new_sample: bool,
}

/// The time per count between `old` and `new`, in microseconds (rounded down).
pub open spec fn count_period_between(old: Sample, new: Sample) -> int {
    (new.timestamp_us - old.timestamp_us) / (new.count - old.count)
}

/// `new` can be compared with the kept sample: when the count moved, it moved
/// forward, time did not go back, and the sums do not overflow.
pub open spec fn update_defined(t: SampleTachometer, new: Sample) -> bool {
    match t.last_sample {
        Some(old) => new.count != old.count ==> {
            &&& new.count > old.count
            &&& new.timestamp_us >= old.timestamp_us
            &&& t.period_samples < u64::MAX
            &&& t.period_sum + count_period_between(old, new) <= u64::MAX
        },
        None => true,
    }
}

/// The tachometer after taking in `new`.
pub open spec fn updated(t: SampleTachometer, new: Sample) -> SampleTachometer {
    match t.last_sample {
        Some(old) => if new.count != old.count {
            SampleTachometer {
                last_sample: Some(new),
                period_samples: (t.period_samples + 1) as u64,
                period_sum: (t.period_sum + count_period_between(old, new)) as u64,
                new_sample: true,
            }
        } else if t.new_sample {
            SampleTachometer { last_sample: Some(new), ..t }
        } else {
            t
        },
        None => SampleTachometer { last_sample: Some(new), new_sample: true, ..t },
    }
}

/// One call on a tachometer: `update` with a sample, or `changed`.
#[derive(Clone, Copy, Debug, PartialEq, Eq, Structural)]
pub enum TachoOp {
    Update(Sample),
    Changed,
}

/// The tachometer after one call.
pub open spec fn apply_op(t: SampleTachometer, op: TachoOp) -> SampleTachometer {
    match op {
        TachoOp::Update(s) => updated(t, s),
        TachoOp::Changed => SampleTachometer { new_sample: false, ..t },
    }
}

/// The tachometer after the calls `ops`, in order.
pub open spec fn run_ops(t: SampleTachometer, ops: Seq<TachoOp>) -> SampleTachometer
    decreases ops.len(),
{
    if ops.len() == 0 {
        t
    } else {
        apply_op(run_ops(t, ops.drop_last()), ops.last())
    }
}

/// Every `update` in `ops` meets its precondition where it is made.
pub open spec fn ops_defined(t: SampleTachometer, ops: Seq<TachoOp>) -> bool
    decreases ops.len(),
{
    if ops.len() == 0 {
        true
    } else {
        &&& ops_defined(t, ops.drop_last())
        &&& match ops.last() {
            TachoOp::Update(s) => update_defined(run_ops(t, ops.drop_last()), s),
            TachoOp::Changed => true,
        }
    }
}

/// The time per count that `op` adds, if it is an update whose count differs
/// from the sample kept in `t`.
pub open spec fn op_period(t: SampleTachometer, op: TachoOp) -> Option<int> {
    match op {
        TachoOp::Update(s) => match t.last_sample {
            Some(o) => if s.count != o.count {
                Some(count_period_between(o, s))
            } else {
                None
            },
            None => None,
        },
        TachoOp::Changed => None,
    }
}

/// The number of updates in `ops` that moved the count.
pub open spec fn moving_updates(t: SampleTachometer, ops: Seq<TachoOp>) -> nat
    decreases ops.len(),
{
    if ops.len() == 0 {
        0
    } else {
        moving_updates(t, ops.drop_last()) + if op_period(run_ops(t, ops.drop_last()), ops.last())
            is Some {
            1nat
        } else {
            0nat
        }
    }
}

/// The sum of the times per count of the updates in `ops` that moved the count.
pub open spec fn moving_period_sum(t: SampleTachometer, ops: Seq<TachoOp>) -> int
    decreases ops.len(),
{
    if ops.len() == 0 {
        0
    } else {
        moving_period_sum(t, ops.drop_last()) + match op_period(
            run_ops(t, ops.drop_last()),
            ops.last(),
        ) {
            Some(p) => p,
            None => 0,
        }
    }
}

/// The running average: from a tachometer as `new` or `reset` leave it, after
/// any calls of `update` and `changed`, `period_samples` is the number of
/// updates whose count differed from the kept sample and `period_sum` the sum
/// of their times per count; so with no such update the sum is zero and
/// `count_period` has nothing to give.
pub proof fn lemma_running_average(t: SampleTachometer, ops: Seq<TachoOp>)
    requires
        t.last_sample.is_none(),
        t.period_samples == 0,
        t.period_sum == 0,
        ops_defined(t, ops),
    ensures
        run_ops(t, ops).period_samples == moving_updates(t, ops),
        run_ops(t, ops).period_sum == moving_period_sum(t, ops),
        run_ops(t, ops).period_samples == 0 ==> run_ops(t, ops).period_sum == 0,
    decreases ops.len(),
{
    if ops.len() > 0 {
        let pre = ops.drop_last();
        lemma_running_average(t, pre);
        let u = run_ops(t, pre);
        match ops.last() {
            TachoOp::Update(s) => {
                match u.last_sample {
                    Some(o) => {
                        if s.count != o.count {
                            assert(count_period_between(o, s) >= 0) by (nonlinear_arith)
                                requires
                                    s.count > o.count,
                                    s.timestamp_us >= o.timestamp_us,
                            {
                            }
                        }
                    },
                    None => {},
                }
            },
            TachoOp::Changed => {},
        }
    }
}

impl SampleTachometer {
    /// A tachometer with no sample and no period yet; the first sample will
    /// be kept.
    pub fn new() -> (r: Self)
        ensures
            r.last_sample.is_none(),
            r.period_samples == 0,
            r.period_sum == 0,
            r.new_sample,
    {
        SampleTachometer { last_sample: None, period_samples: 0, period_sum: 0, new_sample: true }
    }

    /// Forgets all samples and periods, and clears the flag.
    pub fn reset(&mut self)
        ensures
            final(self).last_sample.is_none(),
            final(self).period_samples == 0,
            final(self).period_sum == 0,
            !final(self).new_sample,
    {
        self.last_sample = None;
        self.period_samples = 0;
        self.period_sum = 0;
        self.new_sample = false;
    }

    /// Whether a sample was kept since the last call; clears the flag.
    pub fn changed(&mut self) -> (c: bool)
        ensures
            c == old(self).new_sample,
            *final(self) == (SampleTachometer { new_sample: false, ..*old(self) }),
    {
        let c = self.new_sample;
        self.new_sample = false;
        c
    }

    /// The last sample kept.
    pub fn last_sample(&self) -> (r: Option<Sample>)
        ensures
            r == self.last_sample,
    {
        self.last_sample
    }

    /// Takes in a new sample. When the count moved since the kept sample, the
    /// time per count between the two is added to the average and the sample
    /// is kept; the first sample is always kept.
    pub fn update(&mut self, new_sample: Sample)
        requires
            update_defined(*old(self), new_sample),
        ensures
            *final(self) == updated(*old(self), new_sample),
    {
        match self.last_sample {
            Some(old_sample) => {
                if new_sample.count != old_sample.count {
                    let count_change: u32 = new_sample.count - old_sample.count;
                    let dt_us: u64 = new_sample.timestamp_us - old_sample.timestamp_us;
                    let count_period_us: u64 = dt_us / (count_change as u64);
                    self.period_samples = self.period_samples + 1;
                    self.period_sum = self.period_sum + count_period_us;
                    self.new_sample = true;
                }
            },
            None => {
                self.new_sample = true;
            },
        }
        if self.new_sample {
            self.last_sample = Some(new_sample);
        }
    }

    /// The average time per count, in microseconds (rounded down); `None`
    /// before the count has moved.
    pub fn count_period(&self) -> (r: Option<u64>)
        ensures
            r == if self.period_samples == 0 {
                None::<u64>
            } else {
                Some((self.period_sum / self.period_samples) as u64)
            },
    {
        if self.period_samples == 0 {
            return None;
        }
        let avg_period_us = self.period_sum / self.period_samples;
        Some(avg_period_us)
    }

    /// The average count rate in hertz (rounded down); `None` before the
    /// count has moved. The average period must not be zero.
    pub fn count_rate(&self) -> (r: Option<u32>)
        requires
            self.period_samples != 0 ==> self.period_sum / self.period_samples != 0,
        ensures
            r == if self.period_samples == 0 {
                None::<u32>
            } else {
                Some((1_000_000u64 / (self.period_sum / self.period_samples)) as u32)
            },
    {
        match self.count_period() {
            Some(period) => Some((1_000_000 / period) as u32),
            None => None,
        }
    }
}

} // verus!
