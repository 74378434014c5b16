//! A countdown timer for input debouncing, modeled over explicit
//! millisecond timestamps handed in by the caller.

use vstd::prelude::*;

verus! {

/// How many milliseconds have passed since `started`, by a clock that
/// never runs backwards.
pub open spec fn spec_elapsed(started: u64, now: u64) -> int {
    if now >= started {
        now - started
    } else {
        0
    }
}

/// Keeps track of whether a timed interval has run out.
///
/// The timer never reads a clock itself: every operation takes the
/// current time in milliseconds, so its behavior is a function of its
/// arguments alone.
#[derive(Debug, Clone, Copy)]
pub struct Timer {
    /// When the timer was started, if it is running.
    pub started_at: Option<u64>,
    /// The length of the interval, in milliseconds.
    pub duration: u64,
}

impl Timer {
    /// Creates a stopped timer with the given interval length.
    pub fn new(duration: u64) -> (result: Self)
        ensures
            result.started_at is None,
            result.duration == duration,
    {
        Self { started_at: None, duration }
    }

    /// Starts the timer at the given instant; a running timer is reset.
    pub fn start(&mut self, now: u64)
        ensures
            final(self).started_at == Some(now),
            final(self).duration == old(self).duration,
    {
        self.started_at = Some(now);
    }

    /// Restarts the timer at the given instant; for clarity at call sites
    /// that deliberately restart.
    pub fn restart(&mut self, now: u64)
        ensures
            final(self).started_at == Some(now),
            final(self).duration == old(self).duration,
    {
        self.start(now);
    }

    /// Whether the interval has run out; a finished timer stops itself. A
    /// stopped timer is never finished.
    pub fn is_finished(&mut self, now: u64) -> (result: bool)
        ensures
            match old(self).started_at {
                None => !result && *final(self) == *old(self),
                Some(started) => {
                    &&& result == (spec_elapsed(started, now) >= old(self).duration)
                    &&& final(self).duration == old(self).duration
                    &&& final(self).started_at == (if result {
                        Option::<u64>::None
                    } else {
                        old(self).started_at
                    })
                },
            },
    {
        let started = match self.started_at {
            None => {
                return false;
            },
            Some(started) => started,
        };
        let elapsed = if now >= started {
            now - started
        } else {
            0
        };
        let timer_finished = elapsed >= self.duration;
        if timer_finished {
            self.started_at = None;
        }
        timer_finished
    }

    /// True while the timer is running.
    pub fn running(&self) -> (result: bool)
        ensures
            result == (self.started_at is Some),
    {
        self.started_at.is_some()
    }
}

} // verus!
