//! The futures of sending and receiving one UDP datagram.
//!
//! Each future owns the socket and the buffer while it runs and hands both
//! back when it resolves successfully. Polling one that already resolved
//! successfully is a caller error.
use crate::error::{ErrorKind, IoError};
use crate::poll::Poll;
use vstd::prelude::*;

verus! {

/// The message of the error reported when a datagram was only partly sent.
pub open spec fn partial_send_message() -> Seq<char> {
    "failed to send entire message in datagram"@
}

/// What a send future holds while it runs.
#[derive(Debug)]
pub struct SendDgramInner<S, T, A> {
    /// The sending socket.
    pub socket: S,
    /// The whole buffer to send.
    pub buffer: T,
    /// The destination.
    pub addr: A,
}

/// A future that sends the whole of `buffer` in one datagram to `addr`.
#[derive(Debug)]
pub struct SendDgram<S, T, A> {
    state: Option<SendDgramInner<S, T, A>>,
}

impl<S, T, A> SendDgram<S, T, A> {
    /// What the future holds; `None` once it resolved with the socket and
    /// buffer.
    pub closed spec fn state(&self) -> Option<SendDgramInner<S, T, A>> {
        self.state
    }

    /// A future that sends `buffer` from `socket` to `addr`.
    pub fn new(socket: S, buffer: T, addr: A) -> (f: SendDgram<S, T, A>)
        ensures
            f.state() == Some(SendDgramInner { socket, buffer, addr }),
    {
        SendDgram { state: Some(SendDgramInner { socket, buffer, addr }) }
    }

    /// The socket, buffer and destination of the send, while it runs.
    pub fn parts(&mut self) -> (r: Option<(&mut S, &T, &A)>)
        ensures
            r is Some <==> old(self).state() is Some,
            final(self).state() is Some <==> old(self).state() is Some,
            r matches Some(p) ==> {
                &&& *p.0 == old(self).state()->Some_0.socket
                &&& *p.1 == old(self).state()->Some_0.buffer
                &&& *p.2 == old(self).state()->Some_0.addr
                &&& final(self).state()->Some_0.socket == *final(p.0)
                &&& final(self).state()->Some_0.buffer == old(self).state()->Some_0.buffer
                &&& final(self).state()->Some_0.addr == old(self).state()->Some_0.addr
            },
    {
        match &mut self.state {
            Some(inner) => Some((&mut inner.socket, &inner.buffer, &inner.addr)),
            None => None,
        }
    }

    /// Advances the future with the outcome of sending the buffer, whose
    /// length is `len`: `sent` is what the socket's send reported. A count
    /// other than `len` fails with an error of kind `Other`; errors keep the
    /// future as it was; sending all `len` bytes resolves to the socket and
    /// the buffer and ends the future.
    pub fn poll(&mut self, sent: Poll<Result<usize, IoError>>, len: usize) -> (r: Poll<
        Result<(S, T), IoError>,
    >)
        requires
            old(self).state() is Some,
        ensures
            match sent {
                Poll::Pending => r is Pending && final(self).state() == old(self).state(),
                Poll::Ready(Err(e)) => r == Poll::<Result<(S, T), IoError>>::Ready(Err(e))
                    && final(self).state() == old(self).state(),
                Poll::Ready(Ok(n)) => if n != len {
                    &&& r matches Poll::Ready(Err(e)) && e.kind == ErrorKind::Other
                        && e.message@ == partial_send_message()
                    &&& final(self).state() == old(self).state()
                } else {
                    &&& r == Poll::<Result<(S, T), IoError>>::Ready(
                        Ok((old(self).state()->Some_0.socket, old(self).state()->Some_0.buffer)),
                    )
                    &&& final(self).state() is None
                },
            },
    {
        let n = match sent {
            Poll::Pending => { return Poll::Pending; },
            Poll::Ready(Err(e)) => { return Poll::Ready(Err(e)); },
            Poll::Ready(Ok(n)) => n,
        };
        if n != len {
            return Poll::Ready(
                Err(crate::error::incomplete_write("failed to send entire message in datagram")),
            );
        }
        let mut taken = None;
        std::mem::swap(&mut taken, &mut self.state);
        match taken {
            Some(inner) => Poll::Ready(Ok((inner.socket, inner.buffer))),
            None => Poll::Pending,
        }
    }
}

/// What a receive future holds while it runs.
#[derive(Debug)]
pub struct RecvDgramInner<S, T> {
    /// The receiving socket.
    pub socket: S,
    /// The buffer the datagram is received into.
    pub buffer: T,
}

/// A future that receives one datagram into `buffer`.
#[derive(Debug)]
pub struct RecvDgram<S, T> {
    state: Option<RecvDgramInner<S, T>>,
}

impl<S, T> RecvDgram<S, T> {
    /// What the future holds; `None` once it resolved.
    pub closed spec fn state(&self) -> Option<RecvDgramInner<S, T>> {
        self.state
    }

    /// A future that receives into `buffer` on `socket`.
    pub fn new(socket: S, buffer: T) -> (f: RecvDgram<S, T>)
        ensures
            f.state() == Some(RecvDgramInner { socket, buffer }),
    {
        RecvDgram { state: Some(RecvDgramInner { socket, buffer }) }
    }

    /// The socket and the buffer, while the future runs.
    pub fn parts(&mut self) -> (r: Option<(&mut S, &mut T)>)
        ensures
            r is Some <==> old(self).state() is Some,
            final(self).state() is Some <==> old(self).state() is Some,
            r matches Some(p) ==> {
                &&& *p.0 == old(self).state()->Some_0.socket
                &&& *p.1 == old(self).state()->Some_0.buffer
                &&& final(self).state()->Some_0.socket == *final(p.0)
                &&& final(self).state()->Some_0.buffer == *final(p.1)
            },
    {
        match &mut self.state {
            Some(inner) => Some((&mut inner.socket, &mut inner.buffer)),
            None => None,
        }
    }

    /// Advances the future with what the socket's receive reported: a
    /// datagram of `n` bytes from `addr` resolves to the socket, the buffer,
    /// `n` and `addr`, and ends the future; errors keep it as it was.
    pub fn poll<A>(&mut self, received: Poll<Result<(usize, A), IoError>>) -> (r: Poll<
        Result<(S, T, usize, A), IoError>,
    >)
        requires
            old(self).state() is Some,
        ensures
            match received {
                Poll::Pending => r is Pending && final(self).state() == old(self).state(),
                Poll::Ready(Err(e)) => r == Poll::<Result<(S, T, usize, A), IoError>>::Ready(
                    Err(e),
                ) && final(self).state() == old(self).state(),
                Poll::Ready(Ok((n, a))) => {
                    &&& r == Poll::<Result<(S, T, usize, A), IoError>>::Ready(
                        Ok(
                            (
                                old(self).state()->Some_0.socket,
                                old(self).state()->Some_0.buffer,
                                n,
                                a,
                            ),
                        ),
                    )
                    &&& final(self).state() is None
                },
            },
    {
        let (n, a) = match received {
            Poll::Pending => { return Poll::Pending; },
            Poll::Ready(Err(e)) => { return Poll::Ready(Err(e)); },
            Poll::Ready(Ok(p)) => p,
        };
        let mut taken = None;
        std::mem::swap(&mut taken, &mut self.state);
        match taken {
            Some(inner) => Poll::Ready(Ok((inner.socket, inner.buffer, n, a))),
            None => Poll::Pending,
        }
    }
}

} // verus!
