//! Blocking on a future: the guard against running `block_on` inside itself.

use vstd::prelude::*;

verus! {

/// Proof that the current thread is running `block_on`. While a guard is held
/// the thread's flag is set, so a nested `block_on` is refused.
pub struct RunningGuard {
    held: (),
}

impl RunningGuard {
    /// Marks the current thread as running `block_on`. The flag `is_running` must
    /// be clear: calling `block_on` from inside `block_on` is a fatal error.
    pub fn new(is_running: &mut bool) -> (guard: Self)
        requires
            !*old(is_running),
        ensures
            *final(is_running),
    {
        *is_running = true;
        RunningGuard { held: () }
    }

    /// Ends the `block_on` call that the guard stands for: the flag is cleared.
    pub fn release(self, is_running: &mut bool)
        ensures
            !*final(is_running),
    {
        *is_running = false;
    }
}

} // verus!
