//! Networking support: the I/O error conventions of the runtime and the
//! readiness channels that the event loop fills.

pub mod poll;
pub mod reactor;
pub mod util;
