//! Time limits of input sequences.
use std::time::Duration;
use vstd::prelude::*;

verus! {

/// A time limit, as a count of frames or as a duration.
#[derive(Clone, Copy, Debug)]
pub enum TimeLimit {
    /// At most this many frames may pass.
    Frames(u32),
    /// At most this much time may pass.
    Duration(Duration),
}

/// The length of a duration in nanoseconds: what `Duration::as_nanos` returns.
pub uninterp spec fn duration_nanos(duration: Duration) -> u128;

/// `Duration::as_nanos`: the whole duration in nanoseconds. Taken on trust.
#[verifier::external_body]
pub(crate) fn as_nanos(duration: &Duration) -> (nanos: u128)
    ensures
        nanos == duration_nanos(*duration),
{
    duration.as_nanos()
}

/// `Duration::saturating_sub`: the difference, and zero where `earlier` is the
/// longer of the two. Taken on trust.
#[verifier::external_body]
pub(crate) fn saturating_sub(later: Duration, earlier: Duration) -> (between: Duration)
    ensures
        duration_nanos(between) == if duration_nanos(later) >= duration_nanos(earlier) {
            duration_nanos(later) - duration_nanos(earlier)
        } else {
            0
        },
{
    later.saturating_sub(earlier)
}

impl vstd::std_specs::convert::FromSpecImpl<Duration> for TimeLimit {
    open spec fn obeys_from_spec() -> bool {
        true
    }

    open spec fn from_spec(duration: Duration) -> TimeLimit {
        TimeLimit::Duration(duration)
    }
}

impl From<Duration> for TimeLimit {
    /// The limit of this duration.
    fn from(duration: Duration) -> (limit: TimeLimit) {
        TimeLimit::Duration(duration)
    }
}

} // verus!
