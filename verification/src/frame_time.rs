//! Time stamps: the frame and the time at which an input arrived.
use crate::time_limit::{as_nanos, duration_nanos, saturating_sub, TimeLimit};
use std::time::Duration;
use vstd::prelude::*;

verus! {

/// A point in time, or the span between two: a count of frames and the time
/// elapsed.
#[derive(Clone, Copy, Debug)]
pub struct FrameTime {
    /// The frame counter.
    pub frame: u32,
    /// The time elapsed since the start.
    pub time: Duration,
}

/// More has passed between `start` and `now` than `limit` allows, in frames or
/// in time as the limit is given. A missing limit allows everything.
pub open spec fn timed_out(now: FrameTime, start: FrameTime, limit: Option<TimeLimit>) -> bool {
    match limit {
        None => false,
        Some(TimeLimit::Frames(frames)) => now.frame - start.frame > frames,
        Some(TimeLimit::Duration(duration)) => duration_nanos(now.time) - duration_nanos(
            start.time,
        ) > duration_nanos(duration),
    }
}

impl FrameTime {
    /// `self` is the span from `start` to `now`, and no span where `now` is
    /// the earlier of the two.
    pub open spec fn spans(self, start: FrameTime, now: FrameTime) -> bool {
        &&& self.frame == if now.frame >= start.frame {
            now.frame - start.frame
        } else {
            0
        }
        &&& duration_nanos(self.time) == if duration_nanos(now.time) >= duration_nanos(
            start.time,
        ) {
            duration_nanos(now.time) - duration_nanos(start.time)
        } else {
            0
        }
    }

    /// The span `self` is longer than `limit` allows.
    pub open spec fn exceeds(self, limit: TimeLimit) -> bool {
        match limit {
            TimeLimit::Frames(frames) => self.frame > frames,
            TimeLimit::Duration(duration) => duration_nanos(self.time) > duration_nanos(duration),
        }
    }

    /// The span from `start` to `self`.
    pub fn sub(&self, start: &FrameTime) -> (span: FrameTime)
        ensures
            span.spans(*start, *self),
    {
        FrameTime {
            frame: if self.frame >= start.frame {
                self.frame - start.frame
            } else {
                0
            },
            time: saturating_sub(self.time, start.time),
        }
    }

    /// The span `self` is longer than `limit` allows.
    pub fn has_timedout(&self, limit: &TimeLimit) -> (out: bool)
        ensures
            out == self.exceeds(*limit),
    {
        match limit {
            TimeLimit::Frames(frames) => self.frame > *frames,
            TimeLimit::Duration(duration) => as_nanos(&self.time) > as_nanos(duration),
        }
    }
}

/// A span that exceeds a limit is what `timed_out` speaks of.
pub proof fn lemma_span_exceeds(span: FrameTime, start: FrameTime, now: FrameTime, limit: TimeLimit)
    requires
        span.spans(start, now),
    ensures
        span.exceeds(limit) == timed_out(now, start, Some(limit)),
{
}

/// Whether a sequence with this limit, begun at `start` and completed at `now`,
/// is too late.
pub fn is_late(now: &FrameTime, start: &FrameTime, limit: &Option<TimeLimit>) -> (late: bool)
    ensures
        late == timed_out(*now, *start, *limit),
{
    match limit {
        None => false,
        Some(limit) => {
            let span = now.sub(start);
            proof {
                lemma_span_exceeds(span, *start, *now, *limit);
            }
            span.has_timedout(limit)
        },
    }
}

} // verus!
