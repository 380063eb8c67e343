//! Networking primitives over IP.

pub mod udp;
