//! Time: clocks, delays and timeouts.

pub mod clock;
pub mod delay;
pub mod timeout;
