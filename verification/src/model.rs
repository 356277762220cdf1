//! The matching rules, as mathematics: what a set of sequences makes of a run of
//! inputs. The functions that run say what they do in these terms.
use crate::act::codes;
use crate::frame_time::{timed_out, FrameTime};
use crate::input_sequence::InputSequenceView;
use crate::trie::answer;
use trie_rs::inc_search::Answer;
use vstd::prelude::*;

verus! {

/// The path of a sequence: the codes of its acts.
pub open spec fn path(record: InputSequenceView) -> Seq<u64> {
    codes(record.acts)
}

/// The index over a list of sequences: each path with the place of a sequence
/// that has it (the last, where several share the path).
pub open spec fn entries_of(records: Seq<InputSequenceView>) -> Map<Seq<u64>, usize>
    decreases records.len(),
{
    if records.len() == 0 {
        Map::empty()
    } else {
        entries_of(records.drop_last()).insert(
            path(records.last()),
            (records.len() - 1) as usize,
        )
    }
}

/// Where a search stands after one input, and the path that the input
/// completed, if it completed one.
pub struct Move {
    /// The inputs that still count: a path from the root of the index.
    pub prefix: Seq<u64>,
    /// The path of the sequences that the input completed.
    pub done: Option<Seq<u64>>,
}

/// One query: from `prefix`, follow `label`. Nothing where no sequence goes on
/// that way. A completed path that no sequence extends sends the search back to
/// the root; one that some sequence extends leaves it there.
pub open spec fn query(entries: Map<Seq<u64>, usize>, prefix: Seq<u64>, label: u64) -> Option<
    Move,
> {
    let next = prefix.push(label);
    match answer(entries, next) {
        Some(Answer::Match) => Some(Move { prefix: Seq::empty(), done: Some(next) }),
        Some(Answer::PrefixAndMatch) => Some(Move { prefix: next, done: Some(next) }),
        Some(Answer::Prefix) => Some(Move { prefix: next, done: None }),
        None => None,
    }
}

/// One input: the query from `prefix`, and where that is a dead end, the same
/// query from the root; where that is one too, the search stays at the root.
pub open spec fn advance(entries: Map<Seq<u64>, usize>, prefix: Seq<u64>, label: u64) -> Move {
    match query(entries, prefix, label) {
        Some(step) => step,
        None => match query(entries, Seq::empty(), label) {
            Some(step) => step,
            None => Move { prefix: Seq::empty(), done: None },
        },
    }
}

/// Where a search stands after a run of inputs, and the value of each path that
/// the run completed, in order.
pub struct Run {
    /// The inputs that still count.
    pub prefix: Seq<u64>,
    /// The value of the index at each completed path.
    pub found: Seq<usize>,
}

/// A run of inputs from `prefix`, one `advance` after the other.
pub open spec fn consume(entries: Map<Seq<u64>, usize>, prefix: Seq<u64>, input: Seq<u64>) -> Run
    decreases input.len(),
{
    if input.len() == 0 {
        Run { prefix, found: Seq::empty() }
    } else {
        let before = consume(entries, prefix, input.drop_last());
        let step = advance(entries, before.prefix, input.last());
        Run {
            prefix: step.prefix,
            found: match step.done {
                Some(done) => before.found.push(entries[done]),
                None => before.found,
            },
        }
    }
}

/// The systems that a completed path runs: those of the sequences with this
/// path, in the order of the list, but for the ones whose time limit the span
/// from `start` to `now` exceeds.
pub open spec fn firing(
    records: Seq<InputSequenceView>,
    done: Seq<u64>,
    now: FrameTime,
    start: FrameTime,
) -> Seq<u64>
    decreases records.len(),
{
    if records.len() == 0 {
        Seq::empty()
    } else {
        let earlier = firing(records.drop_last(), done, now, start);
        let last = records.last();
        if path(last) == done && !timed_out(now, start, last.time_limit) {
            earlier.push(last.system_id)
        } else {
            earlier
        }
    }
}

/// A path that an input completed, with the stamp at the front of the queue
/// at that moment.
pub struct Completed {
    /// The path of the sequences that were completed.
    pub path: Seq<u64>,
    /// The stamp from which their time limits count.
    pub start: FrameTime,
}

/// The state of one context in the course of a frame.
pub struct Progress {
    /// The inputs that still count.
    pub prefix: Seq<u64>,
    /// The time stamps of the inputs that are kept.
    pub times: Seq<FrameTime>,
    /// The paths completed so far, in order.
    pub done: Seq<Completed>,
}

/// One input at `now`: its stamp joins the queue; the search advances; a
/// completed path is noted with the stamp at the front of the queue; an input
/// that is a dead end even from the root empties the queue.
pub open spec fn feed(
    entries: Map<Seq<u64>, usize>,
    state: Progress,
    now: FrameTime,
    label: u64,
) -> Progress {
    let times = state.times.push(now);
    let step = advance(entries, state.prefix, label);
    Progress {
        prefix: step.prefix,
        times: if step.done is None && step.prefix.len() == 0 {
            Seq::empty()
        } else {
            times
        },
        done: match step.done {
            Some(path) => state.done.push(Completed { path, start: times[0] }),
            None => state.done,
        },
    }
}

/// The inputs of a frame, in order.
pub open spec fn feed_all(
    entries: Map<Seq<u64>, usize>,
    state: Progress,
    now: FrameTime,
    input: Seq<u64>,
) -> Progress
    decreases input.len(),
{
    if input.len() == 0 {
        state
    } else {
        feed(entries, feed_all(entries, state, now, input.drop_last()), now, input.last())
    }
}

/// The last `keep` stamps of the queue; the whole queue where it has fewer.
pub open spec fn trim(times: Seq<FrameTime>, keep: nat) -> Seq<FrameTime> {
    if times.len() >= keep {
        times.skip(times.len() - keep)
    } else {
        times
    }
}

/// The systems that the completed paths run, path after path.
pub open spec fn fired(records: Seq<InputSequenceView>, done: Seq<Completed>, now: FrameTime) -> Seq<
    u64,
>
    decreases done.len(),
{
    if done.len() == 0 {
        Seq::empty()
    } else {
        fired(records, done.drop_last(), now) + firing(
            records,
            done.last().path,
            now,
            done.last().start,
        )
    }
}

/// What one frame leaves of one context.
pub struct Outcome {
    /// The inputs that still count.
    pub prefix: Seq<u64>,
    /// The time stamps of those inputs.
    pub times: Seq<FrameTime>,
    /// The systems to run, in order.
    pub fired: Seq<u64>,
}

/// One frame of one context. The queue is first cut to the stamps of the
/// inputs that still count, then the inputs are fed, then the queue is cut
/// again.
pub open spec fn step(
    records: Seq<InputSequenceView>,
    prefix: Seq<u64>,
    times: Seq<FrameTime>,
    now: FrameTime,
    input: Seq<u64>,
) -> Outcome {
    let fed = feed_all(
        entries_of(records),
        Progress { prefix, times: trim(times, prefix.len()), done: Seq::empty() },
        now,
        input,
    );
    Outcome {
        prefix: fed.prefix,
        times: trim(fed.times, fed.prefix.len()),
        fired: fired(records, fed.done, now),
    }
}

/// What one frame brings: the time, and the inputs in order.
pub struct Frame {
    /// The stamp of the frame.
    pub now: FrameTime,
    /// The codes of the inputs of the frame.
    pub input: Seq<u64>,
}

/// One context after a run of frames, with what each frame ran.
pub struct Session {
    /// The inputs that still count.
    pub prefix: Seq<u64>,
    /// The time stamps of those inputs.
    pub times: Seq<FrameTime>,
    /// The systems that each frame ran, frame after frame.
    pub fired: Seq<Seq<u64>>,
}

/// A run of frames for a context that starts fresh: at the root, with no stamp
/// kept.
pub open spec fn play(records: Seq<InputSequenceView>, frames: Seq<Frame>) -> Session
    decreases frames.len(),
{
    if frames.len() == 0 {
        Session { prefix: Seq::empty(), times: Seq::empty(), fired: Seq::empty() }
    } else {
        let before = play(records, frames.drop_last());
        let next = step(
            records,
            before.prefix,
            before.times,
            frames.last().now,
            frames.last().input,
        );
        Session { prefix: next.prefix, times: next.times, fired: before.fired.push(next.fired) }
    }
}

/// The inputs of the frames, one frame after the other.
pub open spec fn inputs(frames: Seq<Frame>) -> Seq<u64>
    decreases frames.len(),
{
    if frames.len() == 0 {
        Seq::empty()
    } else {
        inputs(frames.drop_last()) + frames.last().input
    }
}

/// The index holds the paths of the list and no others, and to each the place
/// of a sequence that has it.
pub proof fn lemma_entries_of(records: Seq<InputSequenceView>)
    requires
        records.len() <= usize::MAX,
    ensures
        forall|key: Seq<u64>| #[trigger]
            entries_of(records).contains_key(key) <==> exists|i: int|
                0 <= i < records.len() && #[trigger] path(records[i]) == key,
        forall|key: Seq<u64>| #[trigger]
            entries_of(records).contains_key(key) ==> entries_of(records)[key] < records.len()
                && path(records[entries_of(records)[key] as int]) == key,
    decreases records.len(),
{
    if records.len() > 0 {
        let front = records.drop_last();
        lemma_entries_of(front);
        assert forall|key: Seq<u64>| #[trigger]
            entries_of(records).contains_key(key) implies exists|i: int|
            0 <= i < records.len() && #[trigger] path(records[i]) == key by {
            if path(records.last()) == key {
                assert(path(records[records.len() - 1]) == key);
            } else {
                assert(entries_of(front).contains_key(key));
                let i = choose|i: int| 0 <= i < front.len() && #[trigger] path(front[i]) == key;
                assert(path(records[i]) == key);
            }
        }
        assert forall|key: Seq<u64>|
            (exists|i: int|
                0 <= i < records.len() && #[trigger] path(records[i]) == key) implies #[trigger]
            entries_of(records).contains_key(key) by {
            let i = choose|i: int| 0 <= i < records.len() && #[trigger] path(records[i]) == key;
            if i < front.len() {
                assert(path(front[i]) == key);
                assert(entries_of(front).contains_key(key));
            }
        }
        assert forall|key: Seq<u64>| #[trigger]
            entries_of(records).contains_key(key) implies entries_of(records)[key] < records.len()
            && path(records[entries_of(records)[key] as int]) == key by {
            if path(records.last()) != key {
                assert(entries_of(front).contains_key(key));
                assert(front[entries_of(front)[key] as int] == records[entries_of(
                    front,
                )[key] as int]);
            }
        }
    }
}

} // verus!
