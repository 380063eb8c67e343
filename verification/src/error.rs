//! The I/O error model the state machines reason about.
use vstd::prelude::*;

verus! {

/// The kinds of I/O errors the library tells apart, one per kind of
/// `std::io::ErrorKind`.
#[derive(Clone, Copy, Debug, PartialEq, Eq, Structural)]
pub enum ErrorKind {
    NotFound,
    PermissionDenied,
    ConnectionRefused,
    ConnectionReset,
    ConnectionAborted,
    NotConnected,
    AddrInUse,
    AddrNotAvailable,
    BrokenPipe,
    AlreadyExists,
    WouldBlock,
    InvalidInput,
    InvalidData,
    TimedOut,
    WriteZero,
    Interrupted,
    Other,
    UnexpectedEof,
}

/// An I/O error: its kind and a description.
#[derive(Debug)]
pub struct IoError {
    pub kind: ErrorKind,
    pub message: String,
}

impl IoError {
    /// Creates an error of the given kind with the given description.
    pub fn new(kind: ErrorKind, message: &str) -> (e: IoError)
        ensures
            e.kind == kind,
            e.message@ == message@,
    {
        IoError { kind, message: message.to_owned() }
    }

    /// The kind of this error.
    pub fn kind(&self) -> (k: ErrorKind)
        ensures
            k == self.kind,
    {
        self.kind
    }
}

/// Whether an I/O result is the error "the operation would block".
pub open spec fn would_block<T>(r: Result<T, IoError>) -> bool {
    r matches Err(e) && e.kind == ErrorKind::WouldBlock
}

/// Returns `true` exactly when `r` is an error of kind `WouldBlock`.
pub fn is_wouldblock<T>(r: &Result<T, IoError>) -> (b: bool)
    ensures
        b == would_block(*r),
        b <==> (*r matches Err(e) && e.kind == ErrorKind::WouldBlock),
{
    match r {
        Ok(_) => false,
        Err(e) => e.kind == ErrorKind::WouldBlock,
    }
}

/// Only an error of kind `WouldBlock` means "would block": a success never
/// does, and an error of any other kind never does.
pub proof fn law_would_block_is_only_wouldblock<T>(r: Result<T, IoError>)
    ensures
        r is Ok ==> !would_block(r),
        r matches Err(e) && e.kind != ErrorKind::WouldBlock ==> !would_block(r),
        r matches Err(e) && e.kind == ErrorKind::WouldBlock ==> would_block(r),
{
}

/// The error reported when a datagram was only partly sent.
pub fn incomplete_write(reason: &str) -> (e: IoError)
    ensures
        e.kind == ErrorKind::Other,
        e.message@ == reason@,
{
    IoError::new(ErrorKind::Other, reason)
}

} // verus!
