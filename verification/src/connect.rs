//! The future of a stream connection (`TcpStream::connect`,
//! `UnixStream::connect`).
//!
//! A connection is started by a non-blocking connect call; it is
//! established once the socket is writable and the socket reports no
//! error. Polling a future that already resolved is a caller error. What a
//! failure found on the socket does is chosen per future: the TCP future
//! ends with it, the Unix future keeps waiting on the socket.
use crate::error::IoError;
use crate::poll::Poll;
use vstd::prelude::*;

verus! {

/// Where a connection future stands.
#[derive(Debug)]
pub enum ConnectFutureState<S> {
    /// The connect call returned a socket; wait until it is connected.
    Waiting(S),
    /// The connect call itself failed.
    Error(IoError),
    /// The future resolved.
    Empty,
}

/// What probing a waiting socket found: the outcome of polling its write
/// readiness and then taking its pending socket error.
#[derive(Debug)]
pub enum ConnectProbe {
    /// Not writable yet.
    NotWritable,
    /// Polling the write readiness failed, taking the socket error failed,
    /// or the socket reported this error: the connection failed with it.
    Failed(IoError),
    /// Writable, and the socket reported no error.
    Connected,
}

/// What probing a socket does after polling its write readiness.
#[derive(Debug)]
pub enum ProbeStep {
    /// The probe is over with this finding.
    Done(ConnectProbe),
    /// The socket is writable: take its pending socket error and hand the
    /// outcome to `probe_take_error`.
    TakeError,
}

/// First step of probing a waiting socket, from what polling its write
/// readiness gave: not writable yet, a failed poll, or writable.
pub fn probe_write_ready<R>(ready: Poll<Result<R, IoError>>) -> (s: ProbeStep)
    ensures
        match ready {
            Poll::Pending => s == ProbeStep::Done(ConnectProbe::NotWritable),
            Poll::Ready(Err(e)) => s == ProbeStep::Done(ConnectProbe::Failed(e)),
            Poll::Ready(Ok(_)) => s is TakeError,
        },
{
    match ready {
        Poll::Pending => ProbeStep::Done(ConnectProbe::NotWritable),
        Poll::Ready(Err(e)) => ProbeStep::Done(ConnectProbe::Failed(e)),
        Poll::Ready(Ok(_)) => ProbeStep::TakeError,
    }
}

/// Second step of probing a writable socket, from what taking its pending
/// socket error gave: no error means connected; a pending error, or a
/// failure to take it, means the connection failed with that error.
pub fn probe_take_error(taken: Result<Option<IoError>, IoError>) -> (p: ConnectProbe)
    ensures
        match taken {
            Ok(None) => p == ConnectProbe::Connected,
            Ok(Some(e)) => p == ConnectProbe::Failed(e),
            Err(e) => p == ConnectProbe::Failed(e),
        },
{
    match taken {
        Ok(None) => ConnectProbe::Connected,
        Ok(Some(e)) => ConnectProbe::Failed(e),
        Err(e) => ConnectProbe::Failed(e),
    }
}

/// What a failure found on the waiting socket does to the future.
#[derive(Clone, Copy, Debug, PartialEq, Eq, Structural)]
pub enum OnFailure {
    /// The future keeps waiting on the socket and may be polled again.
    KeepSocket,
    /// The future ends: the socket is dropped and it must not be polled
    /// again.
    End,
}

/// One poll of a connection future in state `state`, given what probing the
/// socket found: the next state and the poll's result. While waiting, not
/// writable keeps waiting on the same socket; a failure resolves to that
/// error and, as `on_failure` says, keeps the socket or ends the future; a
/// connection resolves to the socket and ends the future. A failed connect
/// call resolves to its error, whatever the probe, and ends the future. An
/// ended future is not polled.
pub open spec fn next<S>(state: ConnectFutureState<S>, on_failure: OnFailure, probe: ConnectProbe) -> (
    ConnectFutureState<S>,
    Poll<Result<S, IoError>>,
) {
    match state {
        ConnectFutureState::Waiting(s) => match probe {
            ConnectProbe::NotWritable => (state, Poll::Pending),
            ConnectProbe::Failed(e) => match on_failure {
                OnFailure::KeepSocket => (state, Poll::Ready(Err(e))),
                OnFailure::End => (ConnectFutureState::Empty, Poll::Ready(Err(e))),
            },
            ConnectProbe::Connected => (ConnectFutureState::Empty, Poll::Ready(Ok(s))),
        },
        ConnectFutureState::Error(e) => (ConnectFutureState::Empty, Poll::Ready(Err(e))),
        ConnectFutureState::Empty => (state, Poll::Pending),
    }
}

/// A connection future hands out its stream at most once: the poll that
/// resolves with a stream ends the future, and the stream is the one the
/// future was waiting on.
pub proof fn law_connect_resolves_once<S>(
    state: ConnectFutureState<S>,
    on_failure: OnFailure,
    probe: ConnectProbe,
)
    requires
        !(state is Empty),
    ensures
        next(state, on_failure, probe).1 matches Poll::Ready(Ok(s)) ==> {
            &&& next(state, on_failure, probe).0 is Empty
            &&& state == ConnectFutureState::Waiting(s)
        },
{
}

/// A poll that is pending leaves the future exactly as it was, and only a
/// probe that found the socket not writable gives one.
pub proof fn law_connect_pending_keeps_state<S>(
    state: ConnectFutureState<S>,
    on_failure: OnFailure,
    probe: ConnectProbe,
)
    requires
        !(state is Empty),
    ensures
        next(state, on_failure, probe).1 is Pending <==> (state is Waiting && probe is NotWritable),
        next(state, on_failure, probe).1 is Pending ==> next(state, on_failure, probe).0 == state,
{
}

/// A failure found on the socket resolves to that error; the future then
/// keeps waiting on the socket when it keeps sockets, and ends otherwise.
pub proof fn law_connect_failure<S>(s: S, on_failure: OnFailure, e: IoError)
    ensures
        next(ConnectFutureState::Waiting(s), on_failure, ConnectProbe::Failed(e)).1
            == Poll::<Result<S, IoError>>::Ready(Err(e)),
        on_failure == OnFailure::KeepSocket ==> next(
            ConnectFutureState::Waiting(s),
            on_failure,
            ConnectProbe::Failed(e),
        ).0 == ConnectFutureState::Waiting(s),
        on_failure == OnFailure::End ==> next(
            ConnectFutureState::Waiting(s),
            on_failure,
            ConnectProbe::Failed(e),
        ).0 is Empty,
{
}

/// A connect call that failed with `e` makes the first poll resolve to
/// exactly `e`, whatever the probe and the failure policy, and ends the
/// future.
pub proof fn law_connect_call_error_is_reported<S>(e: IoError, on_failure: OnFailure, probe: ConnectProbe)
    ensures
        next(ConnectFutureState::<S>::Error(e), on_failure, probe).1 == Poll::<Result<S, IoError>>::Ready(Err(e)),
        next(ConnectFutureState::<S>::Error(e), on_failure, probe).0 is Empty,
{
}

/// A future that resolves to a connected stream `S`.
#[derive(Debug)]
pub struct ConnectFuture<S> {
    inner: ConnectFutureState<S>,
    on_failure: OnFailure,
}

impl<S> ConnectFuture<S> {
    /// Where the future stands.
    pub closed spec fn state(&self) -> ConnectFutureState<S> {
        self.inner
    }

    /// What a failure found on the socket does to this future.
    pub closed spec fn failure_policy(&self) -> OnFailure {
        self.on_failure
    }

    /// Whether the future already resolved, after which it must not be
    /// polled again.
    pub open spec fn is_done(&self) -> bool {
        self.state() is Empty
    }

    /// The future of a connection whose non-blocking connect call returned
    /// `started`: it waits on the socket, or fails with the call's error. A
    /// failure found on the socket later does what `on_failure` says.
    pub fn new(started: Result<S, IoError>, on_failure: OnFailure) -> (f: ConnectFuture<S>)
        ensures
            f.state() == (match started {
                Ok(s) => ConnectFutureState::Waiting(s),
                Err(e) => ConnectFutureState::<S>::Error(e),
            }),
            f.failure_policy() == on_failure,
    {
        let inner = match started {
            Ok(s) => ConnectFutureState::Waiting(s),
            Err(e) => ConnectFutureState::Error(e),
        };
        ConnectFuture { inner, on_failure }
    }

    /// Whether the future already resolved; polling it again is an error.
    pub fn is_terminated(&self) -> (b: bool)
        ensures
            b == self.is_done(),
    {
        match &self.inner {
            ConnectFutureState::Empty => true,
            _ => false,
        }
    }

    /// The socket to probe, while the future waits on one.
    pub fn stream(&self) -> (r: Option<&S>)
        ensures
            match self.state() {
                ConnectFutureState::Waiting(s) => r == Some(&s),
                _ => r is None,
            },
    {
        match &self.inner {
            ConnectFutureState::Waiting(s) => Some(s),
            _ => None,
        }
    }

    /// Advances the future by one poll; see `next`.
    pub fn poll(&mut self, probe: ConnectProbe) -> (r: Poll<Result<S, IoError>>)
        requires
            !old(self).is_done(),
        ensures
            (final(self).state(), r) == next(old(self).state(), old(self).failure_policy(), probe),
            old(self).state() matches ConnectFutureState::Error(e) ==> {
                &&& r == Poll::<Result<S, IoError>>::Ready(Err(e))
                &&& final(self).is_done()
            },
            final(self).failure_policy() == old(self).failure_policy(),
    {
        match &self.inner {
            ConnectFutureState::Waiting(_) => {
                match probe {
                    ConnectProbe::NotWritable => { return Poll::Pending; },
                    ConnectProbe::Failed(e) => {
                        match self.on_failure {
                            OnFailure::KeepSocket => {},
                            OnFailure::End => { self.inner = ConnectFutureState::Empty; },
                        }
                        return Poll::Ready(Err(e));
                    },
                    ConnectProbe::Connected => {},
                }
            },
            _ => {},
        }
        let mut taken = ConnectFutureState::Empty;
        std::mem::swap(&mut taken, &mut self.inner);
        match taken {
            ConnectFutureState::Waiting(s) => Poll::Ready(Ok(s)),
            ConnectFutureState::Error(e) => Poll::Ready(Err(e)),
            ConnectFutureState::Empty => Poll::Pending,
        }
    }
}

} // verus!
