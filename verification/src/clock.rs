use vstd::prelude::*;

use crate::nanos::Nanos;

verus! {

/// A monotonic time source for the limiter's callers. The store itself never
/// reads the clock: callers use it to build decision inputs and retention
/// cutoffs.
pub trait Clock: Sized {
    fn now(&self) -> Nanos;

    /// A duplicate of this clock, reading the same time source.
    fn clone_clock(&self) -> (r: Self)
        ensures
            r == *self,
    ;
}

/// A clock under the caller's control: it reads the instant it was built
/// with, which keeps tests reproducible.
#[derive(Clone, Copy, PartialEq, Eq, Debug, Structural)]
pub struct ManualClock {
    pub current: Nanos,
}

impl ManualClock {
    /// A clock reading `at`.
    pub fn new(at: Nanos) -> (r: ManualClock)
        ensures
            r.current == at,
    {
        ManualClock { current: at }
    }
}

impl Clock for ManualClock {
    fn now(&self) -> Nanos {
        self.current
    }

    fn clone_clock(&self) -> (r: ManualClock) {
        *self
    }
}

} // verus!
