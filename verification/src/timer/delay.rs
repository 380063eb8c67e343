//! The deadline a timeout waits for, and the errors of the timer that
//! tracks it.
use vstd::prelude::*;
use std::time::{Duration, Instant};

verus! {

/// `std::time::Instant`, a point in time, opaque here.
#[verifier::external_type_specification]
#[verifier::external_body]
pub struct ExInstant(Instant);

/// When a delay fires.
#[derive(Debug)]
pub enum Deadline {
    /// At this instant.
    At(Instant),
    /// Once this duration has passed after this instant.
    After(Instant, Duration),
}

/// A point in time that the timer reports once reached, and the duration
/// it is reset by, if any.
#[derive(Debug)]
pub struct Delay {
    deadline: Deadline,
    timeout: Option<Duration>,
}

/// An error of the timer.
#[derive(Clone, Copy, Debug, PartialEq, Eq, Structural)]
pub enum TimerError {
    /// The timer was shut down.
    Shutdown,
    /// The timer holds as many delays as it can.
    AtCapacity,
}

impl TimerError {
    /// A description of the error.
    pub fn description(&self) -> (s: &'static str)
        ensures
            s@ == (match self {
                TimerError::Shutdown => "timer is shutdown"@,
                TimerError::AtCapacity => "timer is at capacity and cannot create a new entry"@,
            }),
    {
        match self {
            TimerError::Shutdown => "timer is shutdown",
            TimerError::AtCapacity => "timer is at capacity and cannot create a new entry",
        }
    }
}

impl Delay {
    /// When the delay fires.
    pub closed spec fn deadline(&self) -> Deadline {
        self.deadline
    }

    /// The duration a reset restarts the delay with, if any.
    pub closed spec fn timeout(&self) -> Option<Duration> {
        self.timeout
    }

    /// A delay that fires at `deadline` and is not reset.
    pub fn new(deadline: Instant) -> (d: Delay)
        ensures
            d.deadline() == Deadline::At(deadline),
            d.timeout() is None,
    {
        Delay { deadline: Deadline::At(deadline), timeout: None }
    }

    /// A delay that fires once `timeout` has passed after `start`, and that
    /// a reset restarts for `timeout`.
    pub fn new_timeout(start: Instant, timeout: Duration) -> (d: Delay)
        ensures
            d.deadline() == Deadline::After(start, timeout),
            d.timeout() == Some(timeout),
    {
        Delay { deadline: Deadline::After(start, timeout), timeout: Some(timeout) }
    }

    /// When the delay fires.
    pub fn get_deadline(&self) -> (d: &Deadline)
        ensures
            *d == self.deadline(),
    {
        &self.deadline
    }

    /// The duration a reset restarts the delay with, if any.
    pub fn get_timeout(&self) -> (t: Option<Duration>)
        ensures
            t == self.timeout(),
    {
        self.timeout
    }

    /// Restarts a delay that has a timeout so that it fires once the
    /// timeout has passed after `now`; a delay without one is left as it is.
    pub fn reset_timeout(&mut self, now: Instant)
        ensures
            final(self).timeout() == old(self).timeout(),
            final(self).deadline() == (match old(self).timeout() {
                Some(d) => Deadline::After(now, d),
                None => old(self).deadline(),
            }),
    {
        if let Some(d) = self.timeout {
            self.deadline = Deadline::After(now, d);
        }
    }
}

} // verus!
