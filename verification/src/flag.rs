//! The shared stop flag: a boolean that starts false and can only be set,
//! never cleared.

use vstd::prelude::*;

verus! {

/// The stop signal shared by every worker and the reporter. In the running
/// process it is backed by one atomic boolean; this model carries the logic
/// that is proved about it: setting it is idempotent and it never reverts
/// to false.
pub struct StopFlag {
    stopped: bool,
}

impl StopFlag {
    /// The flag has been set.
    pub closed spec fn is_stopped(&self) -> bool {
        self.stopped
    }

    /// The state of the flag after one set.
    pub closed spec fn after_set(self) -> StopFlag {
        StopFlag { stopped: true }
    }

    /// A fresh flag: not stopped.
    pub fn new() -> (f: StopFlag)
        ensures
            !f.is_stopped(),
    {
        StopFlag { stopped: false }
    }

    /// Signals a stop.
    pub fn set(&mut self)
        ensures
            *final(self) == old(self).after_set(),
            final(self).is_stopped(),
    {
        self.stopped = true;
    }

    /// Reads the flag.
    pub fn is_set(&self) -> (r: bool)
        ensures
            r == self.is_stopped(),
    {
        self.stopped
    }
}

/// Setting the stop flag is idempotent and monotone: one set leaves the
/// flag stopped, a second set changes nothing, and setting an
/// already-stopped flag leaves it exactly as it was — so however many
/// concurrent setters race, the flag converges to stopped and never
/// reverts to false.
pub proof fn lemma_stop_set_idempotent(f: StopFlag)
    ensures
        f.after_set().is_stopped(),
        f.after_set().after_set() == f.after_set(),
        f.is_stopped() ==> f.after_set() == f,
{
}

} // verus!
