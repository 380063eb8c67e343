//! Poll results, and what an I/O attempt on a ready resource leads to.
use crate::error::{would_block, ErrorKind, IoError};
use vstd::prelude::*;

verus! {

/// The result of polling: a value, or not yet.
#[derive(Debug)]
pub enum Poll<T> {
    Ready(T),
    Pending,
}

impl<T> Poll<T> {
    /// Whether this is `Ready`.
    pub fn is_ready(&self) -> (b: bool)
        ensures
            b == (self is Ready),
    {
        match self {
            Poll::Ready(_) => true,
            Poll::Pending => false,
        }
    }

    /// Whether this is `Pending`.
    pub fn is_pending(&self) -> (b: bool)
        ensures
            b == (self is Pending),
    {
        match self {
            Poll::Ready(_) => false,
            Poll::Pending => true,
        }
    }
}

/// What to do with the result of an I/O operation attempted once the
/// resource was reported ready.
#[derive(Debug)]
pub enum IoAction<T> {
    /// Report this result.
    Ready(Result<T, IoError>),
    /// The operation would block: clear the readiness of that direction and
    /// report `Pending`.
    ClearAndWait,
}

/// The action for a read, write, flush, peek, vectored read, datagram send
/// or receive, or TCP accept: `ClearAndWait` exactly when the operation
/// would block, otherwise report its result unchanged.
pub fn complete_io<T>(r: Result<T, IoError>) -> (a: IoAction<T>)
    ensures
        would_block(r) ==> a is ClearAndWait,
        !would_block(r) ==> a == IoAction::Ready(r),
        r is Ok ==> a == IoAction::Ready(r),
        r matches Err(e) && e.kind != ErrorKind::WouldBlock ==> a == IoAction::Ready(r),
        r matches Err(e) && e.kind == ErrorKind::WouldBlock ==> a is ClearAndWait,
{
    match r {
        Err(e) => {
            if e.kind == ErrorKind::WouldBlock {
                IoAction::ClearAndWait
            } else {
                IoAction::Ready(Err(e))
            }
        },
        Ok(v) => IoAction::Ready(Ok(v)),
    }
}

/// The action for a vectored write. Like every other write, one that would
/// block clears the write readiness and waits, rather than reporting the
/// `WouldBlock` error; any other result is reported unchanged.
pub fn complete_vectored_write<T>(r: Result<T, IoError>) -> (a: IoAction<T>)
    ensures
        would_block(r) ==> a is ClearAndWait,
        !would_block(r) ==> a == IoAction::Ready(r),
        r is Ok ==> a == IoAction::Ready(r),
        r matches Err(e) && e.kind != ErrorKind::WouldBlock ==> a == IoAction::Ready(r),
        r matches Err(e) && e.kind == ErrorKind::WouldBlock ==> a is ClearAndWait,
{
    if crate::error::is_wouldblock(&r) {
        IoAction::ClearAndWait
    } else {
        IoAction::Ready(r)
    }
}

/// Whether clearing readiness must wake the task at once: it must when the
/// poll made right after clearing found readiness already (an event arrived
/// in between), so that no wake-up is lost.
pub fn wake_after_clear<T>(repoll: &Poll<T>) -> (b: bool)
    ensures
        b == (*repoll is Ready),
{
    repoll.is_ready()
}

/// The action for an accept on a Unix listener, whose accept reports "no
/// connection yet" either as `Ok(None)` or as a `WouldBlock` error: both
/// clear the read readiness and wait; a connection or another error is
/// reported.
pub fn complete_unix_accept<T>(r: Result<Option<T>, IoError>) -> (a: IoAction<T>)
    ensures
        match r {
            Ok(Some(p)) => a == IoAction::Ready(Ok(p)),
            Ok(None) => a is ClearAndWait,
            Err(e) => if e.kind == ErrorKind::WouldBlock {
                a is ClearAndWait
            } else {
                a == IoAction::<T>::Ready(Err(e))
            },
        },
{
    match r {
        Ok(Some(p)) => IoAction::Ready(Ok(p)),
        Ok(None) => IoAction::ClearAndWait,
        Err(e) => {
            if e.kind == ErrorKind::WouldBlock {
                IoAction::ClearAndWait
            } else {
                IoAction::Ready(Err(e))
            }
        },
    }
}

/// The next item of the stream of accepted connections, from what polling
/// an accept gave: the accepted socket without its address, or the error.
/// The stream never ends.
pub fn incoming_next<S, A>(accepted: Poll<Result<(S, A), IoError>>) -> (r: Poll<
    Option<Result<S, IoError>>,
>)
    ensures
        match accepted {
            Poll::Ready(Ok((s, _))) => r == Poll::<Option<Result<S, IoError>>>::Ready(Some(Ok(s))),
            Poll::Ready(Err(e)) => r == Poll::<Option<Result<S, IoError>>>::Ready(Some(Err(e))),
            Poll::Pending => r is Pending,
        },
        !(r matches Poll::Ready(None)),
{
    match accepted {
        Poll::Ready(Ok((s, _))) => Poll::Ready(Some(Ok(s))),
        Poll::Ready(Err(e)) => Poll::Ready(Some(Err(e))),
        Poll::Pending => Poll::Pending,
    }
}

} // verus!
