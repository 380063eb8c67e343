//! Unix domain sockets.

pub mod datagram;
