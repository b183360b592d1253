//! The rhythm of the flushing thread: a few short pauses, then a flush.

use vstd::prelude::*;

verus! {

/// The number of pauses between two flushes.
pub const FLUSH_INTERVAL: u8 = 5;

/// The length of one pause, in seconds.
pub const PAUSE_SECONDS: u64 = 1;

/// What the flushing thread is to do next.
#[derive(Debug, Clone, Copy, PartialEq, Eq)]
pub enum SchedulerStep {
    /// Sleep for one pause, then ask again.
    Pause,
    /// Flush the buffer, then ask again.
    Flush,
    /// End the thread.
    Exit,
}

/// Where the flushing thread stands in its cycle of pauses and a flush.
#[derive(Debug, Clone, Copy, PartialEq, Eq)]
pub struct FlushScheduler {
    in_cycle: bool,
    paused: u8,
}

/// What a [`FlushScheduler`] means.
pub struct SchedulerState {
    /// Whether a cycle has begun and its flush is still to come.
    pub in_cycle: bool,
    /// The pauses made in this cycle.
    pub paused: nat,
}

/// The next step, and the state after it, given whether the capture runs.
/// Between two cycles a stopped capture ends the thread. Within a cycle
/// the thread pauses until it has made [`FLUSH_INTERVAL`] pauses or sees
/// the capture stopped, whichever comes first, and then flushes.
pub open spec fn scheduled(s: SchedulerState, running: bool) -> (SchedulerState, SchedulerStep) {
    if !s.in_cycle && !running {
        (s, SchedulerStep::Exit)
    } else {
        let paused = if s.in_cycle {
            s.paused
        } else {
            0
        };
        if running && paused < FLUSH_INTERVAL {
            (SchedulerState { in_cycle: true, paused: paused + 1 }, SchedulerStep::Pause)
        } else {
            (SchedulerState { in_cycle: false, paused: 0 }, SchedulerStep::Flush)
        }
    }
}

impl View for FlushScheduler {
    type V = SchedulerState;

    closed spec fn view(&self) -> SchedulerState {
        SchedulerState { in_cycle: self.in_cycle, paused: self.paused as nat }
    }
}

impl FlushScheduler {
    /// A scheduler between two cycles.
    pub fn new() -> (scheduler: FlushScheduler)
        ensures
            scheduler@ == (SchedulerState { in_cycle: false, paused: 0 }),
    {
        FlushScheduler { in_cycle: false, paused: 0 }
    }

    /// The next step for the flushing thread, given whether the capture
    /// runs at this moment.
    pub fn next(&mut self, running: bool) -> (step: SchedulerStep)
        ensures
            (final(self)@, step) == scheduled(old(self)@, running),
    {
        if !self.in_cycle && !running {
            return SchedulerStep::Exit;
        }
        let paused: u8 = if self.in_cycle {
            self.paused
        } else {
            0
        };
        if running && paused < FLUSH_INTERVAL {
            self.in_cycle = true;
            self.paused = paused + 1;
            SchedulerStep::Pause
        } else {
            self.in_cycle = false;
            self.paused = 0;
            SchedulerStep::Flush
        }
    }
}

/// A stop is honoured within one pause: once the capture is stopped the
/// flushing thread pauses no more, and after at most one last flush it
/// ends.
pub proof fn law_stop_ends_the_scheduler(s: SchedulerState)
    ensures
        scheduled(s, false).1 != SchedulerStep::Pause,
        scheduled(scheduled(s, false).0, false).1 == SchedulerStep::Exit,
{
}

/// While the capture runs, a cycle is [`FLUSH_INTERVAL`] pauses and then a
/// flush, after which the next cycle begins.
pub proof fn law_cycle_is_pauses_then_flush(s: SchedulerState)
    requires
        !s.in_cycle,
    ensures
        ({
            let first = scheduled(s, true);
            let second = scheduled(first.0, true);
            let third = scheduled(second.0, true);
            let fourth = scheduled(third.0, true);
            let fifth = scheduled(fourth.0, true);
            let sixth = scheduled(fifth.0, true);
            &&& first.1 == SchedulerStep::Pause
            &&& second.1 == SchedulerStep::Pause
            &&& third.1 == SchedulerStep::Pause
            &&& fourth.1 == SchedulerStep::Pause
            &&& fifth.1 == SchedulerStep::Pause
            &&& sixth.1 == SchedulerStep::Flush
            &&& !sixth.0.in_cycle
        }),
{
}

} // verus!
