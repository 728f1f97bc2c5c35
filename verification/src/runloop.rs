use vstd::prelude::*;

verus! {

/// The scheduler's states. `Stopped` is terminal.
#[derive(Clone, Copy, PartialEq, Eq, Structural, Debug)]
pub enum RunState {
    Running,
    Sleeping,
    Stopped,
}

/// What one full iteration cycle does to a counted or endless run:
/// `None` means the run stops, `Some(rem)` means it goes on with `rem`
/// iterations remaining. Forever mode never counts down.
pub open spec fn cycle(remaining: u32, forever: bool) -> Option<u32> {
    if forever {
        Some(remaining)
    } else if remaining <= 1 {
        None
    } else {
        Some((remaining - 1) as u32)
    }
}

/// `k` iteration cycles in a row; `None` once the run has stopped.
pub open spec fn run_cycles(remaining: u32, forever: bool, k: nat) -> Option<u32>
    decreases k,
{
    if k == 0 {
        Some(remaining)
    } else {
        match run_cycles(remaining, forever, (k - 1) as nat) {
            None => None,
            Some(rem) => cycle(rem, forever),
        }
    }
}

/// Drives the capture cycle: iterate, then sleep, for a fixed count of
/// iterations or forever, until cancelled from outside.
pub struct RunLoop {
    state: RunState,
    times_left: u32,
    forever: bool,
    interval: u16,
}

impl RunLoop {
    /// The scheduler's current state.
    pub closed spec fn run_state(&self) -> RunState {
        self.state
    }

    /// Iterations still to perform; meaningless in forever mode.
    pub closed spec fn remaining(&self) -> u32 {
        self.times_left
    }

    /// Whether the iteration count is ignored.
    pub closed spec fn is_forever(&self) -> bool {
        self.forever
    }

    /// Seconds to wait between iterations.
    pub closed spec fn interval_secs(&self) -> u16 {
        self.interval
    }

    /// While a counted run is not yet stopped, at least one iteration
    /// remains.
    pub open spec fn wf(&self) -> bool {
        !self.is_forever() && !(self.run_state() is Stopped) ==> self.remaining() >= 1
    }

    /// A counted run of zero iterations starts already stopped; every
    /// other configuration starts running.
    pub fn new(interval: u16, count: u32, forever: bool) -> (r: RunLoop)
        ensures
            r.wf(),
            r.run_state() == (if !forever && count == 0 {
                RunState::Stopped
            } else {
                RunState::Running
            }),
            r.remaining() == count,
            r.is_forever() == forever,
            r.interval_secs() == interval,
    {
        let state = if !forever && count == 0 {
            RunState::Stopped
        } else {
            RunState::Running
        };
        RunLoop { state, times_left: count, forever, interval }
    }

    /// Whether an iteration should be performed now.
    pub fn is_running(&self) -> (b: bool)
        ensures
            b == (self.run_state() is Running),
    {
        matches!(self.state, RunState::Running)
    }

    /// Whether the scheduler is waiting out the interval.
    pub fn is_sleeping(&self) -> (b: bool)
        ensures
            b == (self.run_state() is Sleeping),
    {
        matches!(self.state, RunState::Sleeping)
    }

    /// Whether the run is over.
    pub fn is_stopped(&self) -> (b: bool)
        ensures
            b == (self.run_state() is Stopped),
    {
        matches!(self.state, RunState::Stopped)
    }

    /// Seconds to wait between iterations.
    pub fn interval(&self) -> (r: u16)
        ensures
            r == self.interval_secs(),
    {
        self.interval
    }

    /// After one call to the writer, whatever its outcome: count the
    /// iteration off and either stop — the count is exhausted — or go to
    /// sleep until the next one. Forever mode never stops here.
    pub fn after_iteration(&mut self)
        requires
            old(self).wf(),
            old(self).run_state() is Running,
        ensures
            final(self).wf(),
            final(self).is_forever() == old(self).is_forever(),
            final(self).interval_secs() == old(self).interval_secs(),
            (match cycle(old(self).remaining(), old(self).is_forever()) {
                None => final(self).run_state() is Stopped,
                Some(rem) => final(self).run_state() is Sleeping && final(self).remaining()
                    == rem,
            }),
    {
        if !self.forever {
            self.times_left = self.times_left - 1;
            if self.times_left == 0 {
                self.state = RunState::Stopped;
                return ;
            }
        }
        self.state = RunState::Sleeping;
    }

    /// The interval has elapsed: run the next iteration.
    pub fn after_sleep(&mut self)
        requires
            old(self).wf(),
            old(self).run_state() is Sleeping,
        ensures
            final(self).wf(),
            final(self).run_state() is Running,
            final(self).remaining() == old(self).remaining(),
            final(self).is_forever() == old(self).is_forever(),
            final(self).interval_secs() == old(self).interval_secs(),
    {
        self.state = RunState::Running;
    }

    /// External cancellation: stop promptly, from any state.
    pub fn cancel(&mut self)
        ensures
            final(self).wf(),
            final(self).run_state() is Stopped,
            final(self).remaining() == old(self).remaining(),
            final(self).is_forever() == old(self).is_forever(),
            final(self).interval_secs() == old(self).interval_secs(),
    {
        self.state = RunState::Stopped;
    }
}

/// A counted run performs exactly `count` iterations: after each of the
/// first `count - 1` cycles it is still going with the count stepped down
/// by one, and the `count`-th cycle stops it — no cancellation needed.
pub proof fn lemma_counted_run_stops(count: u32, k: nat)
    requires
        count >= 1,
        k <= count,
    ensures
        k < count ==> run_cycles(count, false, k) == Some((count - k) as u32),
        k == count ==> run_cycles(count, false, k) is None,
    decreases k,
{
    if k > 0 {
        lemma_counted_run_stops(count, (k - 1) as nat);
    }
}

/// A run in forever mode never stops by counting: only cancellation ends
/// it.
pub proof fn lemma_forever_run_never_counts_out(remaining: u32, k: nat)
    ensures
        run_cycles(remaining, true, k) == Some(remaining),
    decreases k,
{
    if k > 0 {
        lemma_forever_run_never_counts_out(remaining, (k - 1) as nat);
    }
}

} // verus!
