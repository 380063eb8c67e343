//! Asynchronous network primitives: the readiness bookkeeping, the
//! connect / datagram / accept state machines and the timeout logic, with
//! their contracts. The sockets and the reactor that feed them events live
//! outside this crate.

pub mod connect;
pub mod error;
pub mod net;
pub mod poll;
pub mod raw;
pub mod timer;
pub mod uds;
