//! The futures of sending and receiving one Unix datagram.
use crate::error::{ErrorKind, IoError};
use crate::poll::Poll;
use vstd::prelude::*;

verus! {

/// The message of the error reported when a datagram was only partly sent.
pub open spec fn short_send_message() -> Seq<char> {
    "Couldn't send whole buffer"@
}

/// The peer name of a received datagram: the path of the sender's address
/// when it has one that is valid UTF-8, and the empty string otherwise.
pub open spec fn peer_name_of(path: Option<Option<String>>) -> Seq<char> {
    match path {
        Some(Some(s)) => s@,
        _ => Seq::empty(),
    }
}

/// A sender whose address has a UTF-8 path is named by that whole path,
/// whatever its length; a sender without one gets the empty name.
pub proof fn law_peer_name_is_the_path(path: Option<Option<String>>)
    ensures
        path matches Some(Some(s)) ==> peer_name_of(path) == s@,
        !(path matches Some(Some(_))) ==> peer_name_of(path).len() == 0,
{
}

/// The peer name from the sender's address: `path` is `None` for an
/// address without a path, `Some(None)` for a path that is not valid UTF-8.
pub fn peer_name(path: Option<Option<String>>) -> (s: String)
    ensures
        s@ == peer_name_of(path),
        path matches Some(Some(p)) ==> s@ == p@,
        !(path matches Some(Some(_))) ==> s@.len() == 0,
{
    match path {
        Some(Some(s)) => s,
        _ => String::new(),
    }
}

/// The state of a send future.
#[derive(Debug)]
pub enum SendState<S, T, P> {
    /// Sending `buf` from `sock` to `addr`.
    Sending { sock: S, buf: T, addr: P },
    /// Resolved.
    Empty,
}

/// A future that writes a buffer to a Unix datagram socket.
#[derive(Debug)]
pub struct SendDgram<S, T, P> {
    st: SendState<S, T, P>,
}

impl<S, T, P> SendDgram<S, T, P> {
    /// The state of the future.
    pub closed spec fn state(&self) -> SendState<S, T, P> {
        self.st
    }

    /// A future that sends `buf` from `sock` to the socket at `addr`.
    pub fn new(sock: S, buf: T, addr: P) -> (f: SendDgram<S, T, P>)
        ensures
            f.state() == (SendState::Sending { sock, buf, addr }),
    {
        SendDgram { st: SendState::Sending { sock, buf, addr } }
    }

    /// The socket, buffer and destination, while the future sends.
    pub fn parts(&mut self) -> (r: Option<(&mut S, &T, &P)>)
        ensures
            r is Some <==> old(self).state() is Sending,
            final(self).state() is Sending <==> old(self).state() is Sending,
            r matches Some(p) ==> {
                &&& *p.0 == old(self).state()->sock
                &&& *p.1 == old(self).state()->buf
                &&& *p.2 == old(self).state()->addr
                &&& final(self).state()->sock == *final(p.0)
                &&& final(self).state()->buf == old(self).state()->buf
                &&& final(self).state()->addr == old(self).state()->addr
            },
    {
        match &mut self.st {
            SendState::Sending { sock, buf, addr } => Some((sock, &*buf, &*addr)),
            SendState::Empty => None,
        }
    }

    /// Advances the future with what the socket's send reported for the
    /// buffer, whose length is `len`. Fewer than `len` bytes fails with an
    /// error of kind `Other`; errors keep the future as it was; `len` bytes
    /// or more resolves to the socket and the buffer and ends the future.
    pub fn poll(&mut self, sent: Poll<Result<usize, IoError>>, len: usize) -> (r: Poll<
        Result<(S, T), IoError>,
    >)
        requires
            old(self).state() is Sending,
        ensures
            match sent {
                Poll::Pending => r is Pending && final(self).state() == old(self).state(),
                Poll::Ready(Err(e)) => r == Poll::<Result<(S, T), IoError>>::Ready(Err(e))
                    && final(self).state() == old(self).state(),
                Poll::Ready(Ok(n)) => if n < len {
                    &&& r matches Poll::Ready(Err(e)) && e.kind == ErrorKind::Other
                        && e.message@ == short_send_message()
                    &&& final(self).state() == old(self).state()
                } else {
                    &&& r == Poll::<Result<(S, T), IoError>>::Ready(
                        Ok((old(self).state()->sock, old(self).state()->buf)),
                    )
                    &&& final(self).state() is Empty
                },
            },
    {
        let n = match sent {
            Poll::Pending => { return Poll::Pending; },
            Poll::Ready(Err(e)) => { return Poll::Ready(Err(e)); },
            Poll::Ready(Ok(n)) => n,
        };
        if n < len {
            return Poll::Ready(Err(IoError::new(ErrorKind::Other, "Couldn't send whole buffer")));
        }
        let mut taken = SendState::Empty;
        std::mem::swap(&mut taken, &mut self.st);
        match taken {
            SendState::Sending { sock, buf, addr: _ } => Poll::Ready(Ok((sock, buf))),
            SendState::Empty => Poll::Pending,
        }
    }
}

/// The state of a receive future.
#[derive(Debug)]
pub enum RecvState<S, T> {
    /// Receiving into `buf` on `sock`.
    Receiving { sock: S, buf: T },
    /// Resolved.
    Empty,
}

/// A future that receives one datagram from a Unix datagram socket.
#[derive(Debug)]
pub struct RecvDgram<S, T> {
    st: RecvState<S, T>,
}

impl<S, T> RecvDgram<S, T> {
    /// The state of the future.
    pub closed spec fn state(&self) -> RecvState<S, T> {
        self.st
    }

    /// A future that receives into `buf` on `sock`.
    pub fn new(sock: S, buf: T) -> (f: RecvDgram<S, T>)
        ensures
            f.state() == (RecvState::Receiving { sock, buf }),
    {
        RecvDgram { st: RecvState::Receiving { sock, buf } }
    }

    /// The socket and the buffer, while the future receives.
    pub fn parts(&mut self) -> (r: Option<(&mut S, &mut T)>)
        ensures
            r is Some <==> old(self).state() is Receiving,
            final(self).state() is Receiving <==> old(self).state() is Receiving,
            r matches Some(p) ==> {
                &&& *p.0 == old(self).state()->sock
                &&& *p.1 == old(self).state()->buf
                &&& final(self).state()->sock == *final(p.0)
                &&& final(self).state()->buf == *final(p.1)
            },
    {
        match &mut self.st {
            RecvState::Receiving { sock, buf } => Some((sock, buf)),
            RecvState::Empty => None,
        }
    }

    /// Advances the future with what the socket's receive reported: `n`
    /// bytes from a sender whose address has the path `path` (see
    /// `peer_name`). A datagram resolves to the socket, the buffer, `n` and
    /// the peer name, and ends the future; errors keep it as it was.
    pub fn poll(&mut self, received: Poll<Result<(usize, Option<Option<String>>), IoError>>) -> (r:
        Poll<Result<(S, T, usize, String), IoError>>)
        requires
            old(self).state() is Receiving,
        ensures
            match received {
                Poll::Pending => r is Pending && final(self).state() == old(self).state(),
                Poll::Ready(Err(e)) => r == Poll::<Result<(S, T, usize, String), IoError>>::Ready(
                    Err(e),
                ) && final(self).state() == old(self).state(),
                Poll::Ready(Ok((n, path))) => {
                    &&& r matches Poll::Ready(Ok((s, b, m, peer))) && s == old(self).state()->sock
                        && b == old(self).state()->buf && m == n && peer@ == peer_name_of(path)
                    &&& final(self).state() is Empty
                },
            },
    {
        let (n, path) = match received {
            Poll::Pending => { return Poll::Pending; },
            Poll::Ready(Err(e)) => { return Poll::Ready(Err(e)); },
            Poll::Ready(Ok(p)) => p,
        };
        let peer = peer_name(path);
        let mut taken = RecvState::Empty;
        std::mem::swap(&mut taken, &mut self.st);
        match taken {
            RecvState::Receiving { sock, buf } => Poll::Ready(Ok((sock, buf, n, peer))),
            RecvState::Empty => Poll::Pending,
        }
    }
}

} // verus!
