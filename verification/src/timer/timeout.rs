//! Allows a future or stream to execute for a limited amount of time.
//!
//! A `Timeout` wraps a value and a delay. Polling it polls the value
//! first: a completed value is returned even if the delay has fired too.
//! Only when the value is not ready is the delay polled: a fired delay
//! turns into an `elapsed` error, a failed timer into a `timer` error.
//! For a stream, every item restarts the delay at the instant it arrived,
//! so each item gets the whole timeout.
use crate::poll::Poll;
use crate::timer::clock::now;
use crate::timer::delay::{Deadline, Delay, TimerError};
use vstd::prelude::*;
use std::time::{Duration, Instant};

verus! {

/// Why a timeout failed.
#[derive(Clone, Copy, Debug, PartialEq, Eq, Structural)]
pub enum Kind {
    /// The timeout elapsed.
    Elapsed,
    /// The timer returned an error.
    Timer(TimerError),
}

/// Error returned by `Timeout`.
#[derive(Clone, Copy, Debug, PartialEq, Eq, Structural)]
pub struct Error(pub Kind);

/// The message of an elapsed timeout.
pub open spec fn elapsed_message() -> Seq<char> {
    "deadline has elapsed"@
}

impl Error {
    /// Why the timeout failed.
    pub open spec fn kind(self) -> Kind {
        self.0
    }

    /// The error of a value that did not complete before the deadline.
    pub fn elapsed() -> (e: Error)
        ensures
            e.kind() == Kind::Elapsed,
    {
        Error(Kind::Elapsed)
    }

    /// Whether the value did not complete before the deadline.
    pub fn is_elapsed(&self) -> (b: bool)
        ensures
            b == (self.kind() is Elapsed),
    {
        match self.0 {
            Kind::Elapsed => true,
            _ => false,
        }
    }

    /// The error of a timer that failed.
    pub fn timer(err: TimerError) -> (e: Error)
        ensures
            e.kind() == Kind::Timer(err),
    {
        Error(Kind::Timer(err))
    }

    /// Whether the timer failed.
    pub fn is_timer(&self) -> (b: bool)
        ensures
            b == (self.kind() is Timer),
    {
        match self.0 {
            Kind::Timer(_) => true,
            _ => false,
        }
    }

    /// The error of the timer, if that is what failed.
    pub fn into_timer(self) -> (r: Option<TimerError>)
        ensures
            r == (match self.kind() {
                Kind::Timer(e) => Some(e),
                Kind::Elapsed => None,
            }),
    {
        match self.0 {
            Kind::Timer(err) => Some(err),
            _ => None,
        }
    }

    /// A description of the error.
    pub fn description(&self) -> (s: &'static str)
        ensures
            self.kind() is Elapsed ==> s@ == elapsed_message(),
            self.kind() matches Kind::Timer(t) ==> s@ == (match t {
                TimerError::Shutdown => "timer is shutdown"@,
                TimerError::AtCapacity => "timer is at capacity and cannot create a new entry"@,
            }),
    {
        match &self.0 {
            Kind::Elapsed => "deadline has elapsed",
            Kind::Timer(e) => e.description(),
        }
    }
}

/// A timeout error has exactly one cause: it elapsed, or the timer failed,
/// and only a timer failure carries the timer's error.
pub proof fn law_error_has_one_cause(e: Error)
    ensures
        (e.kind() is Elapsed) != (e.kind() is Timer),
        (e.kind() is Timer) == (match e.kind() {
            Kind::Timer(t) => Some(t),
            Kind::Elapsed => None,
        }) is Some,
{
}

impl From<TimerError> for Error {
    fn from(error: TimerError) -> (e: Error) {
        Error::timer(error)
    }
}

impl vstd::std_specs::convert::FromSpecImpl<TimerError> for Error {
    open spec fn obeys_from_spec() -> bool {
        true
    }

    open spec fn from_spec(v: TimerError) -> Error {
        Error(Kind::Timer(v))
    }
}

/// The deadline after a restart at `now`: a timeout with a duration starts
/// over from `now`; one that fires at a fixed instant keeps it.
pub open spec fn restarted(deadline: Deadline, timeout: Option<Duration>, now: Instant) -> Deadline {
    match timeout {
        Some(d) => Deadline::After(now, d),
        None => deadline,
    }
}

/// What to do after polling the wrapped value.
#[derive(Debug)]
pub enum TimeoutStep<R> {
    /// Report this.
    Done(R),
    /// The value is not ready: poll the delay and hand its outcome to the
    /// timeout.
    PollDelay,
}

/// A value that may execute for a limited amount of time.
#[derive(Debug)]
pub struct Timeout<T> {
    value: T,
    delay: Delay,
}

impl<T> Timeout<T> {
    /// The wrapped value.
    pub closed spec fn value(&self) -> T {
        self.value
    }

    /// When the timeout expires.
    pub closed spec fn deadline(&self) -> Deadline {
        self.delay.deadline()
    }

    /// The duration each reset restarts the timeout with, if any.
    pub closed spec fn timeout(&self) -> Option<Duration> {
        self.delay.timeout()
    }

    /// Wraps `value` so that it may execute for at most `timeout`, counted
    /// from now by the system clock; for a stream, counted anew from each
    /// item. A source installed in a `Clock` is not consulted: to count from
    /// a clock's reading, read it and call `new_started`.
    pub fn new(value: T, timeout: Duration) -> (t: Timeout<T>)
        ensures
            t.value() == value,
            t.deadline() matches Deadline::After(_, d) && d == timeout,
            t.timeout() == Some(timeout),
    {
        Timeout::new_started(value, timeout, now())
    }

    /// Wraps `value` so that it may execute for at most `timeout`, counted
    /// from the instant `now`, which the caller read from its clock; for a
    /// stream, counted anew from each item.
    pub fn new_started(value: T, timeout: Duration, now: Instant) -> (t: Timeout<T>)
        ensures
            t.value() == value,
            t.deadline() == Deadline::After(now, timeout),
            t.timeout() == Some(timeout),
    {
        let delay = Delay::new_timeout(now, timeout);
        Timeout { value, delay }
    }

    /// Wraps `future` so that it completes by `deadline` at the latest.
    pub fn new_at(future: T, deadline: Instant) -> (t: Timeout<T>)
        ensures
            t.value() == future,
            t.deadline() == Deadline::At(deadline),
            t.timeout() is None,
    {
        let delay = Delay::new(deadline);
        Timeout { value: future, delay }
    }

    /// A reference to the wrapped value.
    pub fn get_ref(&self) -> (r: &T)
        ensures
            *r == self.value(),
    {
        &self.value
    }

    /// A mutable reference to the wrapped value.
    pub fn get_mut(&mut self) -> (r: &mut T)
        ensures
            *r == old(self).value(),
            final(self).value() == *final(r),
            final(self).deadline() == old(self).deadline(),
            final(self).timeout() == old(self).timeout(),
    {
        &mut self.value
    }

    /// Consumes the timeout, returning the wrapped value.
    pub fn into_inner(self) -> (r: T)
        ensures
            r == self.value(),
    {
        self.value
    }

    /// The delay the timeout waits for.
    pub fn delay(&self) -> (d: &Delay)
        ensures
            d.deadline() == self.deadline(),
            d.timeout() == self.timeout(),
    {
        &self.delay
    }

    /// First step of polling a future: `value` is what polling the wrapped
    /// future gave. A completed future is returned as it is; otherwise the
    /// delay must be polled.
    pub fn poll_value<V>(&self, value: Poll<V>) -> (s: TimeoutStep<Poll<Result<V, Error>>>)
        ensures
            match value {
                Poll::Ready(v) => s == TimeoutStep::Done(Poll::<Result<V, Error>>::Ready(Ok(v))),
                Poll::Pending => s is PollDelay,
            },
    {
        match value {
            Poll::Ready(v) => TimeoutStep::Done(Poll::Ready(Ok(v))),
            Poll::Pending => TimeoutStep::PollDelay,
        }
    }

    /// Second step of polling a future: `delay` is what polling the delay
    /// gave. A fired delay is an `elapsed` error, a failed timer a `timer`
    /// error; otherwise the timeout is pending.
    pub fn poll_delay<V>(&self, delay: Poll<Result<(), TimerError>>) -> (r: Poll<Result<V, Error>>)
        ensures
            match delay {
                Poll::Ready(Ok(())) => r == Poll::<Result<V, Error>>::Ready(
                    Err(Error(Kind::Elapsed)),
                ),
                Poll::Ready(Err(e)) => r == Poll::<Result<V, Error>>::Ready(
                    Err(Error(Kind::Timer(e))),
                ),
                Poll::Pending => r is Pending,
            },
    {
        match delay {
            Poll::Ready(Ok(())) => Poll::Ready(Err(Error::elapsed())),
            Poll::Ready(Err(e)) => Poll::Ready(Err(Error::from(e))),
            Poll::Pending => Poll::Pending,
        }
    }

    /// First step of polling a stream: `item` is what polling the wrapped
    /// stream gave, and `now` the current instant of the caller's clock. An
    /// item is returned and restarts the timeout at `now`, so that the next
    /// item gets the whole timeout; the end of the stream is returned;
    /// otherwise the delay must be polled.
    pub fn poll_next_value<I>(&mut self, item: Poll<Option<I>>, now: Instant) -> (s: TimeoutStep<
        Poll<Option<Result<I, Error>>>,
    >)
        ensures
            final(self).value() == old(self).value(),
            final(self).timeout() == old(self).timeout(),
            match item {
                Poll::Ready(Some(v)) => {
                    &&& s == TimeoutStep::Done(Poll::<Option<Result<I, Error>>>::Ready(Some(Ok(v))))
                    &&& final(self).deadline() == restarted(
                        old(self).deadline(),
                        old(self).timeout(),
                        now,
                    )
                },
                Poll::Ready(None) => {
                    &&& s == TimeoutStep::Done(Poll::<Option<Result<I, Error>>>::Ready(None))
                    &&& final(self).deadline() == old(self).deadline()
                },
                Poll::Pending => s is PollDelay && final(self).deadline() == old(self).deadline(),
            },
    {
        match item {
            Poll::Ready(Some(v)) => {
                self.delay.reset_timeout(now);
                TimeoutStep::Done(Poll::Ready(Some(Ok(v))))
            },
            Poll::Ready(None) => TimeoutStep::Done(Poll::Ready(None)),
            Poll::Pending => TimeoutStep::PollDelay,
        }
    }

    /// Second step of polling a stream: `delay` is what polling the delay
    /// gave, and `now` the current instant of the caller's clock. A fired
    /// delay yields an `elapsed` error, a failed timer a `timer` error with
    /// the timer's error; either restarts the timeout at `now` and leaves the
    /// stream going. Otherwise the stream is pending.
    pub fn poll_next_delay<I>(&mut self, delay: Poll<Result<(), TimerError>>, now: Instant) -> (r:
        Poll<Option<Result<I, Error>>>)
        ensures
            final(self).value() == old(self).value(),
            final(self).timeout() == old(self).timeout(),
            match delay {
                Poll::Ready(fired) => {
                    &&& r == Poll::<Option<Result<I, Error>>>::Ready(
                        Some(
                            Err(
                                match fired {
                                    Ok(()) => Error(Kind::Elapsed),
                                    Err(te) => Error(Kind::Timer(te)),
                                },
                            ),
                        ),
                    )
                    &&& final(self).deadline() == restarted(
                        old(self).deadline(),
                        old(self).timeout(),
                        now,
                    )
                },
                Poll::Pending => r is Pending && final(self).deadline() == old(self).deadline(),
            },
    {
        match delay {
            Poll::Ready(fired) => {
                self.delay.reset_timeout(now);
                let e = match fired {
                    Ok(()) => Error::elapsed(),
                    Err(te) => Error::from(te),
                };
                Poll::Ready(Some(Err(e)))
            },
            Poll::Pending => Poll::Pending,
        }
    }
}

/// Each item of a stream gets the whole timeout: after an item that
/// arrives at `now`, the timeout fires once its duration has passed after
/// `now`, whatever the deadline was before.
pub proof fn law_each_item_gets_the_whole_timeout(deadline: Deadline, d: Duration, now: Instant)
    ensures
        restarted(deadline, Some(d), now) == Deadline::After(now, d),
{
}

} // verus!
