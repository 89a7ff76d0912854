//! A two-state timer for a single task: either running since some instant
//! with a previously accumulated total, or stopped with a final total.
//!
//! Instants are milliseconds since the Unix epoch (`i64`); accumulated
//! durations are non-negative milliseconds (`u64`). If the wall clock
//! regresses past a running timer's start instant, the running contribution
//! clamps to zero rather than going negative; totals that would exceed
//! `u64::MAX` milliseconds saturate there.

use vstd::prelude::*;

verus! {

/// Accumulated running time of one task.
#[derive(Clone, Copy, PartialEq, Eq, Structural, Debug)]
pub enum TaskTimer {
    /// Running since `start_ms`, with `acc_ms` accumulated before that.
    Running { start_ms: i64, acc_ms: u64 },
    /// Stopped with `total_ms` accumulated in all past running intervals.
    Stopped { total_ms: u64 },
}

/// Saturate an elapsed-time value at the largest representable total.
pub open spec fn cap_u64(x: int) -> int {
    if x > u64::MAX as int {
        u64::MAX as int
    } else {
        x
    }
}

impl TaskTimer {
    /// Mathematical elapsed time as of `now`: the accumulated total, plus the
    /// current running interval clamped to zero under clock regression.
    pub open spec fn elapsed_spec(self, now: int) -> int {
        match self {
            TaskTimer::Running { start_ms, acc_ms } => acc_ms as int + if now
                >= start_ms as int {
                now - start_ms as int
            } else {
                0
            },
            TaskTimer::Stopped { total_ms } => total_ms as int,
        }
    }

    /// The timer after `stop` at `now`: a no-op when already stopped, else
    /// stopped at the elapsed total as of `now` (saturated).
    pub open spec fn stop_spec(self, now: int) -> TaskTimer {
        match self {
            TaskTimer::Running { .. } => TaskTimer::Stopped {
                total_ms: cap_u64(self.elapsed_spec(now)) as u64,
            },
            TaskTimer::Stopped { .. } => self,
        }
    }

    /// The timer after `start` at `now`: a no-op when already running, else
    /// running from `now` with the stopped total carried over.
    pub open spec fn start_spec(self, now: i64) -> TaskTimer {
        match self {
            TaskTimer::Running { .. } => self,
            TaskTimer::Stopped { total_ms } => TaskTimer::Running {
                start_ms: now,
                acc_ms: total_ms,
            },
        }
    }

    /// A fresh timer: stopped with nothing accumulated.
    pub fn new() -> (t: Self)
        ensures
            t == (TaskTimer::Stopped { total_ms: 0u64 }),
    {
        TaskTimer::Stopped { total_ms: 0 }
    }

    /// Elapsed milliseconds as of `now`, saturated at `u64::MAX`.
    pub fn elapsed_ms(&self, now: i64) -> (r: u64)
        ensures
            r as int == cap_u64(self.elapsed_spec(now as int)),
    {
        match *self {
            TaskTimer::Running { start_ms, acc_ms } => {
                let run_ms: u64 = if now >= start_ms {
                    let d: i128 = now as i128 - start_ms as i128;
                    d as u64
                } else {
                    0
                };
                if acc_ms <= u64::MAX - run_ms {
                    acc_ms + run_ms
                } else {
                    u64::MAX
                }
            },
            TaskTimer::Stopped { total_ms } => total_ms,
        }
    }

    /// The `HH:MM:SS` display of the elapsed time as of `now`, truncated
    /// toward zero at seconds granularity.
    pub fn at(&self, now: i64) -> (r: String)
        ensures
            r@ == crate::display::spec_hms((cap_u64(self.elapsed_spec(now as int)) / 1000) as nat),
    {
        let ms = self.elapsed_ms(now);
        crate::display::render_hms(ms / 1000)
    }

    /// Stop at `now`; no-op when already stopped.
    pub fn stop(&self, now: i64) -> (r: Self)
        ensures
            r == self.stop_spec(now as int),
    {
        match *self {
            TaskTimer::Running { .. } => TaskTimer::Stopped { total_ms: self.elapsed_ms(now) },
            TaskTimer::Stopped { .. } => *self,
        }
    }

    /// Start at `now`; no-op when already running.
    pub fn start(&self, now: i64) -> (r: Self)
        ensures
            r == self.start_spec(now),
    {
        match *self {
            TaskTimer::Running { .. } => *self,
            TaskTimer::Stopped { total_ms } => TaskTimer::Running {
                start_ms: now,
                acc_ms: total_ms,
            },
        }
    }
}

impl Default for TaskTimer {
    /// Same value as `TaskTimer::new`: stopped with nothing accumulated.
    fn default() -> (t: Self)
        ensures
            t == (TaskTimer::Stopped { total_ms: 0u64 }),
    {
        TaskTimer::Stopped { total_ms: 0 }
    }
}

/// Elapsed time never decreases as the clock advances, and is constant while
/// the timer is stopped; the saturated value follows suit.
pub proof fn lemma_elapsed_monotonic(t: TaskTimer, n1: int, n2: int)
    requires
        n1 <= n2,
    ensures
        t.elapsed_spec(n1) <= t.elapsed_spec(n2),
        t is Stopped ==> t.elapsed_spec(n1) == t.elapsed_spec(n2),
        cap_u64(t.elapsed_spec(n1)) <= cap_u64(t.elapsed_spec(n2)),
{
}

/// Starting a stopped timer at `t1` and stopping it at `t2` accumulates
/// exactly `t2 - t1` on top of the previous total; while stopped no further
/// time is counted, so the total read at any later `t3` — even right after a
/// restart at `t3` — is the same, independent of `t3`.
pub proof fn lemma_start_stop_accumulates(t: TaskTimer, t1: i64, t2: i64, t3: i64)
    requires
        t is Stopped,
        t1 <= t2 <= t3,
        t.elapsed_spec(t1 as int) + (t2 - t1) <= u64::MAX as int,
    ensures
        t.start_spec(t1).stop_spec(t2 as int) is Stopped,
        t.start_spec(t1).stop_spec(t2 as int).elapsed_spec(t3 as int) == t.elapsed_spec(t1 as int)
            + (t2 - t1),
        t.start_spec(t1).stop_spec(t2 as int).start_spec(t3).elapsed_spec(t3 as int)
            == t.elapsed_spec(t1 as int) + (t2 - t1),
{
}

/// Stopping at `t1`, restarting at `t2` and stopping again at `t3` adds only
/// the new running interval `t3 - t2` to the total as of `t1`: the stopped
/// gap `t2 - t1` contributes nothing, whatever state the timer was in.
pub proof fn lemma_stop_start_stop_skips_the_gap(t: TaskTimer, t1: i64, t2: i64, t3: i64)
    requires
        t1 <= t2 <= t3,
        t.elapsed_spec(t1 as int) + (t3 - t2) <= u64::MAX as int,
    ensures
        t.stop_spec(t1 as int).start_spec(t2).stop_spec(t3 as int) == (TaskTimer::Stopped {
            total_ms: (t.elapsed_spec(t1 as int) + (t3 - t2)) as u64,
        }),
{
}

} // verus!
