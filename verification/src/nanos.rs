use vstd::prelude::*;

verus! {

/// A point on a monotonic time axis, with nanosecond-like resolution.
///
/// The store only copies and compares these values; any arithmetic on them is
/// done by the caller's decision function.
#[derive(Clone, Copy, PartialEq, Eq, Hash, Debug, Structural)]
pub struct Nanos(pub u64);

} // verus!
