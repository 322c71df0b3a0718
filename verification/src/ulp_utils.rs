//! Decisions of the HP-side test utilities: whether the ULP firmware keeps
//! counting, and the value that programs the ULP wake-up timer period.

use vstd::prelude::*;

verus! {

/// How long the HP core waits for the loop counter to move, in microseconds.
pub const ULP_IS_LOOPING_TIMEOUT_MICROS: u64 = 1_000_000;

/// Watching the shared loop counter for a change: started with the counter
/// value and the time, polled with later values and times.
#[derive(Clone, Copy, Debug, PartialEq, Eq, Structural)]
pub struct LoopingProbe {
    pub start_us: u64,
    pub start_count: u32,
}

/// The outcome of a finished probe.
#[derive(Clone, Copy, Debug, PartialEq, Eq, Structural)]
pub struct LoopingReport {
    /// The counter moved.
    pub looping: bool,
    /// Counter value at the start.
    pub before: u32,
    /// Counter value at the end.
    pub after: u32,
    /// Counts per second over the probe (rounded down), when the counter moved.
    pub rate_hz: Option<u64>,
}

/// What a poll of the probe says.
#[derive(Clone, Copy, Debug, PartialEq, Eq, Structural)]
pub enum ProbePoll {
    /// Neither has the counter moved nor has the timeout passed: wait and poll again.
    Waiting,
    Done(LoopingReport),
}

impl LoopingProbe {
    /// Starts watching a counter that reads `start_count` at `start_us`.
    pub fn new(start_us: u64, start_count: u32) -> (r: LoopingProbe)
        ensures
            r.start_us == start_us,
            r.start_count == start_count,
    {
        LoopingProbe { start_us, start_count }
    }

    /// The counter reads `count` at `now_us`. The probe ends when the counter
    /// changed or a second has passed since the start. Time must not go back,
    /// and a changed counter must have moved forward with time having passed.
    pub fn poll(&self, now_us: u64, count: u32) -> (r: ProbePoll)
        requires
            now_us >= self.start_us,
            count != self.start_count ==> count > self.start_count && now_us > self.start_us,
        ensures
            r == if count == self.start_count && now_us - self.start_us < ULP_IS_LOOPING_TIMEOUT_MICROS {
                ProbePoll::Waiting
            } else {
                ProbePoll::Done(
                    LoopingReport {
                        looping: count != self.start_count,
                        before: self.start_count,
                        after: count,
                        rate_hz: if count == self.start_count {
                            None::<u64>
                        } else {
                            Some(((count - self.start_count) * 1_000_000 / (now_us - self.start_us)) as u64)
                        },
                    },
                )
            },
    {
        let elapsed_us = now_us - self.start_us;
        if count == self.start_count && elapsed_us < ULP_IS_LOOPING_TIMEOUT_MICROS {
            return ProbePoll::Waiting;
        }
        let c: u64 = (count - self.start_count) as u64;
        let rate_hz = if c == 0 {
            None
        } else {
            assert(c * 1_000_000 <= 0xffff_ffff * 1_000_000) by (nonlinear_arith)
                requires c <= 0xffff_ffff;
            Some(c * 1_000_000 / elapsed_us)
        };
        ProbePoll::Done(LoopingReport { looping: count != self.start_count, before: self.start_count, after: count, rate_hz })
    }
}

/// The value written into the ULP timer's sleep-cycle field to set the wake-up
/// period to `cycles`: `cycles` shifted left by 8 bits (bits shifted out are lost).
pub fn ulp_timer_period(cycles: u32) -> (field: u32)
    ensures
        field == (cycles * 256) % 0x1_0000_0000,
{
    let field = cycles << 8u32;
    assert(cycles << 8u32 == (cycles * 256) % 0x1_0000_0000) by (bit_vector);
    field
}

/// How long the counter may stand still before the HP harness dumps the
/// co-processor's debug state, in microseconds.
pub const DEBUG_DUMP_AFTER_MICROS: u64 = 2_000_000;

/// The HP harness's watch over the ULP loop counter: the last count seen, when
/// it last changed, and when the last event (a change or a debug dump) was.
#[derive(Clone, Copy, Debug, PartialEq, Eq, Structural)]
pub struct CounterMonitor {
    pub count: u32,
    pub last_change_us: u64,
    pub last_event_us: u64,
}

/// What the harness does after one look at the counter.
#[derive(Clone, Copy, Debug, PartialEq, Eq, Structural)]
pub enum MonitorAction {
    /// Nothing to report.
    Nothing,
    /// The counter went from `from` to `to`, `delta_us` after its last change.
    Report { delta_us: u64, from: u32, to: u32 },
    /// The counter has stood still for two seconds since the last event: dump
    /// the co-processor's debug state.
    DumpDebug,
}

impl CounterMonitor {
    pub open spec fn wf(self) -> bool {
        self.last_change_us <= self.last_event_us
    }

    /// Starts watching a counter that reads `count` at `now_us`.
    pub fn new(count: u32, now_us: u64) -> (m: CounterMonitor)
        ensures
            m.wf(),
            m == (CounterMonitor { count, last_change_us: now_us, last_event_us: now_us }),
    {
        CounterMonitor { count, last_change_us: now_us, last_event_us: now_us }
    }
}

/// One look at the counter, which reads `count` at `now_us`: a change is
/// reported with the time since the previous change, and restarts both
/// clocks; with no change for two seconds since the last event, the debug
/// state is dumped and the event clock restarts.
pub fn monitor_step(m: &mut CounterMonitor, now_us: u64, count: u32) -> (a: MonitorAction)
    requires
        old(m).wf(),
        now_us >= old(m).last_event_us,
    ensures
        final(m).wf(),
        count != old(m).count ==> {
            &&& a == MonitorAction::Report {
                delta_us: (now_us - old(m).last_change_us) as u64,
                from: old(m).count,
                to: count,
            }
            &&& *final(m) == (CounterMonitor { count, last_change_us: now_us, last_event_us: now_us })
        },
        count == old(m).count && now_us - old(m).last_event_us >= DEBUG_DUMP_AFTER_MICROS ==> {
            &&& a == MonitorAction::DumpDebug
            &&& *final(m) == (CounterMonitor { last_event_us: now_us, ..*old(m) })
        },
        count == old(m).count && now_us - old(m).last_event_us < DEBUG_DUMP_AFTER_MICROS ==> {
            &&& a == MonitorAction::Nothing
            &&& *final(m) == *old(m)
        },
{
    if count != m.count {
        let a = MonitorAction::Report { delta_us: now_us - m.last_change_us, from: m.count, to: count };
        m.count = count;
        m.last_change_us = now_us;
        m.last_event_us = now_us;
        a
    } else if now_us - m.last_event_us >= DEBUG_DUMP_AFTER_MICROS {
        m.last_event_us = now_us;
        MonitorAction::DumpDebug
    } else {
        MonitorAction::Nothing
    }
}

} // verus!
