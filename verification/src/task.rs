//! Task support: the poll result shared by all futures of the runtime.

pub mod block;
pub mod blocking;
pub mod spawn;
pub mod timer;
pub mod yield_now;

use vstd::prelude::*;

verus! {

/// The result of polling a future once: either a value, or "not yet".
pub enum Poll<T> {
    /// The future finished with this value.
    Ready(T),
    /// The future cannot progress yet; a waker has been or will be registered.
    Pending,
}

} // verus!
