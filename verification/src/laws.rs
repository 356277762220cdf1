//! What holds of the matching rules, whatever the sequences and the inputs.
use crate::input_sequence::InputSequenceView;
use crate::model::{
    advance, consume, entries_of, feed, feed_all, fired, firing, inputs, lemma_entries_of, path,
    play, query, step, trim, Completed, Frame, Progress,
};
use crate::frame_time::{timed_out, FrameTime};
use crate::trie::extends;
use vstd::prelude::*;

verus! {

/// Along a path of the index, an input that follows the path is never a dead
/// end: before the end it leaves the search on the path, it completes nothing
/// but the stretch of the path behind it, and at the end it completes the path.
pub proof fn lemma_advance_along(entries: Map<Seq<u64>, usize>, whole: Seq<u64>, i: int)
    requires
        entries.contains_key(whole),
        0 <= i < whole.len(),
    ensures
        i + 1 < whole.len() ==> advance(entries, whole.take(i), whole[i]).prefix == whole.take(
            i + 1,
        ),
        advance(entries, whole.take(i), whole[i]).done is Some ==> advance(
            entries,
            whole.take(i),
            whole[i],
        ).done == Some(whole.take(i + 1)),
        i + 1 == whole.len() ==> advance(entries, whole.take(i), whole[i]).done == Some(whole),
{
    let next = whole.take(i).push(whole[i]);
    assert(next =~= whole.take(i + 1));
    if i + 1 < whole.len() {
        assert(whole.take(i + 1).is_prefix_of(whole));
        assert(extends(entries, next));
    } else {
        assert(whole.take(i + 1) =~= whole);
    }
}

/// `count` stamps of one frame.
pub open spec fn stamped(now: FrameTime, count: nat) -> Seq<FrameTime> {
    Seq::new(count, |i: int| now)
}

/// Fed a stretch of a path of the index from the place on the path where the
/// stretch begins, the search follows the path and every input keeps its
/// stamp; what is completed on the way are stretches of the path from its
/// start, each shorter than the next; and where the stretch ends the path, the
/// last completed is the path itself, timed from the front of the queue.
pub proof fn lemma_feed_along(
    entries: Map<Seq<u64>, usize>,
    whole: Seq<u64>,
    state: Progress,
    now: FrameTime,
    input: Seq<u64>,
    at: int,
)
    requires
        entries.contains_key(whole),
        0 <= at < whole.len(),
        at + input.len() <= whole.len(),
        input == whole.subrange(at, at + input.len()),
        state.prefix == whole.take(at),
        state.done.len() == 0,
    ensures
        at + input.len() < whole.len() ==> feed_all(entries, state, now, input).prefix
            == whole.take(at + input.len()),
        at + input.len() < whole.len() ==> feed_all(entries, state, now, input).times
            == state.times + stamped(now, input.len()),
        forall|j: int|
            0 <= j < feed_all(entries, state, now, input).done.len() ==> {
                &&& (#[trigger] feed_all(entries, state, now, input).done[j]).path.len() <= at
                    + input.len()
                &&& feed_all(entries, state, now, input).done[j].path.is_prefix_of(whole)
                &&& j + 1 < feed_all(entries, state, now, input).done.len() ==> feed_all(
                    entries,
                    state,
                    now,
                    input,
                ).done[j].path.len() < at + input.len()
            },
        input.len() > 0 && at + input.len() == whole.len() ==> feed_all(
            entries,
            state,
            now,
            input,
        ).done.len() > 0 && feed_all(entries, state, now, input).done.last().path == whole
            && feed_all(entries, state, now, input).done.last().start == (state.times + stamped(
            now,
            input.len(),
        ))[0],
    decreases input.len(),
{
    if input.len() > 0 {
        let front = input.drop_last();
        let i = at + front.len();
        assert(front =~= whole.subrange(at, at + front.len()));
        lemma_feed_along(entries, whole, state, now, front, at);
        let before = feed_all(entries, state, now, front);
        assert(before.prefix == whole.take(i));
        assert(input.last() == whole[i]);
        lemma_advance_along(entries, whole, i);
        let after = feed(entries, before, now, input.last());
        assert(feed_all(entries, state, now, input) == after);
        assert(whole.take(i + 1).is_prefix_of(whole));
        assert(before.times.push(now) =~= state.times + stamped(now, input.len()));
        assert forall|j: int| 0 <= j < after.done.len() implies {
            &&& (#[trigger] after.done[j]).path.len() <= at + input.len()
            &&& after.done[j].path.is_prefix_of(whole)
            &&& j + 1 < after.done.len() ==> after.done[j].path.len() < at + input.len()
        } by {
            if j < before.done.len() {
                assert(after.done[j] == before.done[j]);
            }
        }
    } else {
        assert(state.times + stamped(now, 0) =~= state.times);
    }
}

/// A sequence whose time limit is kept is among those that its own path
/// runs.
pub proof fn lemma_firing_has(
    records: Seq<InputSequenceView>,
    r: int,
    now: FrameTime,
    start: FrameTime,
)
    requires
        0 <= r < records.len(),
        !timed_out(now, start, records[r].time_limit),
    ensures
        firing(records, path(records[r]), now, start).contains(records[r].system_id),
    decreases records.len(),
{
    let done = path(records[r]);
    let front = records.drop_last();
    let earlier = firing(front, done, now, start);
    if r == records.len() - 1 {
        let all = earlier.push(records[r].system_id);
        assert(all[all.len() - 1] == records[r].system_id);
    } else {
        assert(front[r] == records[r]);
        lemma_firing_has(front, r, now, start);
        let k = choose|k: int| 0 <= k < earlier.len() && earlier[k] == records[r].system_id;
        assert(firing(records, done, now, start)[k] == records[r].system_id);
    }
}

/// A system that a completed path runs is that of a sequence with this path
/// whose time limit is kept: a sequence that is too late is never run.
pub proof fn lemma_firing_only(
    records: Seq<InputSequenceView>,
    done: Seq<u64>,
    now: FrameTime,
    start: FrameTime,
    system: u64,
)
    requires
        firing(records, done, now, start).contains(system),
    ensures
        exists|j: int|
            0 <= j < records.len() && #[trigger] path(records[j]) == done && records[j].system_id
                == system && !timed_out(now, start, records[j].time_limit),
    decreases records.len(),
{
    if records.len() > 0 {
        let front = records.drop_last();
        let earlier = firing(front, done, now, start);
        let last = records.last();
        let all = firing(records, done, now, start);
        let k = choose|k: int| 0 <= k < all.len() && all[k] == system;
        if k < earlier.len() {
            assert(earlier[k] == system);
            lemma_firing_only(front, done, now, start, system);
            let j = choose|j: int|
                0 <= j < front.len() && #[trigger] path(front[j]) == done && front[j].system_id
                    == system && !timed_out(now, start, front[j].time_limit);
            assert(path(records[j]) == done && records[j].system_id == system);
        } else {
            assert(path(records[records.len() - 1]) == done);
        }
    }
}

/// A system that a frame runs is run by one of the paths completed in it.
pub proof fn lemma_fired_only(
    records: Seq<InputSequenceView>,
    done: Seq<Completed>,
    now: FrameTime,
    system: u64,
)
    requires
        fired(records, done, now).contains(system),
    ensures
        exists|k: int|
            0 <= k < done.len() && #[trigger] firing(
                records,
                done[k].path,
                now,
                done[k].start,
            ).contains(system),
    decreases done.len(),
{
    if done.len() > 0 {
        let front = done.drop_last();
        let earlier = fired(records, front, now);
        let last = firing(records, done.last().path, now, done.last().start);
        let all = fired(records, done, now);
        let i = choose|i: int| 0 <= i < all.len() && all[i] == system;
        if i < earlier.len() {
            assert(earlier[i] == system);
            lemma_fired_only(records, front, now, system);
            let k = choose|k: int|
                0 <= k < front.len() && #[trigger] firing(
                    records,
                    front[k].path,
                    now,
                    front[k].start,
                ).contains(system);
            assert(done[k] == front[k]);
        } else {
            assert(last[i - earlier.len()] == system);
            assert(firing(
                records,
                done[done.len() - 1].path,
                now,
                done[done.len() - 1].start,
            ).contains(system));
        }
    }
}

/// What the path completed last in a frame runs, the frame runs.
pub proof fn lemma_fired_has(
    records: Seq<InputSequenceView>,
    done: Seq<Completed>,
    now: FrameTime,
    system: u64,
)
    requires
        done.len() > 0,
        firing(records, done.last().path, now, done.last().start).contains(system),
    ensures
        fired(records, done, now).contains(system),
{
    let earlier = fired(records, done.drop_last(), now);
    let last = firing(records, done.last().path, now, done.last().start);
    let i = choose|i: int| 0 <= i < last.len() && last[i] == system;
    assert((earlier + last)[earlier.len() + i] == system);
}

/// No sequence that runs `system` has a path that `whole` strictly extends.
pub open spec fn runs_no_earlier(records: Seq<InputSequenceView>, whole: Seq<u64>, system: u64) -> bool {
    forall|j: int|
        0 <= j < records.len() && records[j].system_id == system ==> !((#[trigger] path(
            records[j],
        )).is_prefix_of(whole) && path(records[j]).len() < whole.len())
}

/// Every sequence with the path `whole` that runs `system` is too late when
/// completed at `now` after a start at `start`.
pub open spec fn all_late(
    records: Seq<InputSequenceView>,
    whole: Seq<u64>,
    system: u64,
    now: FrameTime,
    start: FrameTime,
) -> bool {
    forall|j: int|
        0 <= j < records.len() && #[trigger] path(records[j]) == whole && records[j].system_id
            == system ==> timed_out(now, start, records[j].time_limit)
}

/// The path of a sequence of the list is a path of the index.
pub proof fn lemma_path_indexed(records: Seq<InputSequenceView>, r: int)
    requires
        records.len() <= usize::MAX,
        0 <= r < records.len(),
    ensures
        entries_of(records).contains_key(path(records[r])),
{
    lemma_entries_of(records);
}

/// Where the paths completed are stretches of `whole` from its start, none but
/// the last as long as `whole`, they run `system` only if a sequence that
/// `whole` strictly extends runs it, or one with the path `whole` that is in
/// time from the start of the last.
proof fn lemma_short_of_it(
    records: Seq<InputSequenceView>,
    whole: Seq<u64>,
    system: u64,
    done: Seq<Completed>,
    now: FrameTime,
)
    requires
        runs_no_earlier(records, whole, system),
        forall|j: int|
            0 <= j < done.len() ==> (#[trigger] done[j]).path.len() <= whole.len()
                && done[j].path.is_prefix_of(whole) && (j + 1 < done.len() ==> done[j].path.len()
                < whole.len()),
        done.len() > 0 && done.last().path.len() == whole.len() ==> all_late(
            records,
            whole,
            system,
            now,
            done.last().start,
        ),
    ensures
        !fired(records, done, now).contains(system),
{
    if fired(records, done, now).contains(system) {
        lemma_fired_only(records, done, now, system);
        let k = choose|k: int|
            0 <= k < done.len() && #[trigger] firing(
                records,
                done[k].path,
                now,
                done[k].start,
            ).contains(system);
        lemma_firing_only(records, done[k].path, now, done[k].start, system);
        let j = choose|j: int|
            0 <= j < records.len() && #[trigger] path(records[j]) == done[k].path
                && records[j].system_id == system && !timed_out(
                now,
                done[k].start,
                records[j].time_limit,
            );
        assert(path(records[j]).is_prefix_of(whole));
        if path(records[j]).len() == whole.len() {
            assert(path(records[j]) =~= whole);
            assert(k == done.len() - 1);
        }
        assert(false);
    }
}

/// One frame that brings a stretch of the path of the sequence at `r`, to a
/// context that stands on the path where the stretch begins and holds the
/// stamps of the inputs so far. Short of the end of the path, the context
/// stands on the path afterwards, with the stamps of the frame added. At the
/// end of the path the system of the sequence is run where the sequence is in
/// time, counted from the first stamp.
pub proof fn lemma_step_along(
    records: Seq<InputSequenceView>,
    r: int,
    times: Seq<FrameTime>,
    now: FrameTime,
    input: Seq<u64>,
    at: int,
)
    requires
        records.len() <= usize::MAX,
        0 <= r < records.len(),
        0 <= at < path(records[r]).len(),
        at + input.len() <= path(records[r]).len(),
        input == path(records[r]).subrange(at, at + input.len()),
        times.len() == at,
    ensures
        at + input.len() < path(records[r]).len() ==> step(
            records,
            path(records[r]).take(at),
            times,
            now,
            input,
        ).prefix == path(records[r]).take(at + input.len()),
        at + input.len() < path(records[r]).len() ==> step(
            records,
            path(records[r]).take(at),
            times,
            now,
            input,
        ).times == times + stamped(now, input.len()),
        input.len() > 0 && at + input.len() == path(records[r]).len() && !timed_out(
            now,
            (times + stamped(now, input.len()))[0],
            records[r].time_limit,
        ) ==> step(records, path(records[r]).take(at), times, now, input).fired.contains(
            records[r].system_id,
        ),
        runs_no_earlier(records, path(records[r]), records[r].system_id) && (at + input.len()
            == path(records[r]).len() ==> all_late(
            records,
            path(records[r]),
            records[r].system_id,
            now,
            (times + stamped(now, input.len()))[0],
        )) ==> !step(records, path(records[r]).take(at), times, now, input).fired.contains(
            records[r].system_id,
        ),
{
    let whole = path(records[r]);
    let system = records[r].system_id;
    assert(trim(times, whole.take(at).len()) =~= times);
    let begin = Progress { prefix: whole.take(at), times, done: Seq::empty() };
    lemma_path_indexed(records, r);
    lemma_feed_along(entries_of(records), whole, begin, now, input, at);
    let fed = feed_all(entries_of(records), begin, now, input);
    let first = (times + stamped(now, input.len()))[0];
    if at + input.len() < whole.len() {
        assert(trim(fed.times, fed.prefix.len()) =~= fed.times);
    }
    if input.len() > 0 && at + input.len() == whole.len() && !timed_out(
        now,
        first,
        records[r].time_limit,
    ) {
        lemma_firing_has(records, r, now, fed.done.last().start);
        lemma_fired_has(records, fed.done, now, system);
    }
    if runs_no_earlier(records, whole, system) && (at + input.len() == whole.len() ==> all_late(
        records,
        whole,
        system,
        now,
        first,
    )) {
        lemma_short_of_it(records, whole, system, fed.done, now);
    }
}

/// The inputs of all frames but the last are a first stretch of the inputs of
/// all, and the last frame brings the rest.
pub proof fn lemma_inputs_split(frames: Seq<Frame>)
    requires
        frames.len() > 0,
    ensures
        inputs(frames.drop_last()).len() + frames.last().input.len() == inputs(frames).len(),
        inputs(frames.drop_last()) == inputs(frames).take(inputs(frames.drop_last()).len() as int),
        frames.last().input == inputs(frames).subrange(
            inputs(frames.drop_last()).len() as int,
            inputs(frames).len() as int,
        ),
{
    let front = inputs(frames.drop_last());
    assert(front =~= inputs(frames).take(front.len() as int));
    assert(frames.last().input =~= inputs(frames).subrange(
        front.len() as int,
        inputs(frames).len() as int,
    ));
}

/// The stamps of the inputs of the frames, one for each input.
pub open spec fn stamps(frames: Seq<Frame>) -> Seq<FrameTime>
    decreases frames.len(),
{
    if frames.len() == 0 {
        Seq::empty()
    } else {
        stamps(frames.drop_last()) + stamped(frames.last().now, frames.last().input.len())
    }
}

/// While the frames have brought only a first stretch of the path of the
/// sequence at `r`, short of its end, a fresh context stands on that stretch
/// and holds the stamp of every input. No frame has run the system of the
/// sequence, unless another sequence that this one strictly extends runs it.
pub proof fn lemma_play_along(records: Seq<InputSequenceView>, r: int, frames: Seq<Frame>)
    requires
        records.len() <= usize::MAX,
        0 <= r < records.len(),
        inputs(frames).is_prefix_of(path(records[r])),
        inputs(frames).len() < path(records[r]).len(),
    ensures
        play(records, frames).prefix == inputs(frames),
        play(records, frames).times == stamps(frames),
        stamps(frames).len() == inputs(frames).len(),
        play(records, frames).fired.len() == frames.len(),
        runs_no_earlier(records, path(records[r]), records[r].system_id) ==> forall|k: int|
            0 <= k < frames.len() ==> !(#[trigger] play(records, frames).fired[k]).contains(
                records[r].system_id,
            ),
    decreases frames.len(),
{
    let whole = path(records[r]);
    if frames.len() > 0 {
        let front = frames.drop_last();
        let last = frames.last();
        let at = inputs(front).len() as int;
        lemma_inputs_split(frames);
        assert(inputs(front) =~= whole.take(at));
        assert(last.input =~= whole.subrange(at, at + last.input.len()));
        assert(inputs(frames) =~= whole.take(at + last.input.len()));
        lemma_play_along(records, r, front);
        let before = play(records, front);
        lemma_step_along(records, r, before.times, last.now, last.input, at);
        let next = step(records, before.prefix, before.times, last.now, last.input);
        assert(play(records, frames).fired == before.fired.push(next.fired));
        if runs_no_earlier(records, whole, records[r].system_id) {
            assert forall|k: int| 0 <= k < frames.len() implies !(#[trigger] play(
                records,
                frames,
            ).fired[k]).contains(records[r].system_id) by {
                if k < front.len() {
                    assert(play(records, frames).fired[k] == before.fired[k]);
                }
            }
        }
    } else {
        assert(inputs(frames) =~= Seq::<u64>::empty());
    }
}

/// A sequence fed its acts and nothing else from a fresh context, in any split
/// over frames. The frame that brings the last act runs its system if the
/// sequence is in time, counted from the stamp of the frame that brought the
/// first act; a sequence without a time limit always is. Provided that no
/// sequence with the same system has a path that this one's strictly extends:
/// no earlier frame runs the system, and the last frame does not either where
/// every sequence with this path and system is too late.
pub proof fn lemma_exact_input_fires(records: Seq<InputSequenceView>, r: int, frames: Seq<Frame>)
    requires
        records.len() <= usize::MAX,
        0 <= r < records.len(),
        frames.len() > 0,
        frames.last().input.len() > 0,
        inputs(frames) == path(records[r]),
    ensures
        play(records, frames).fired.len() == frames.len(),
        stamps(frames).len() == inputs(frames).len(),
        !timed_out(frames.last().now, stamps(frames)[0], records[r].time_limit) ==> play(
            records,
            frames,
        ).fired.last().contains(records[r].system_id),
        runs_no_earlier(records, path(records[r]), records[r].system_id) ==> forall|k: int|
            0 <= k < frames.len() - 1 ==> !(#[trigger] play(records, frames).fired[k]).contains(
                records[r].system_id,
            ),
        runs_no_earlier(records, path(records[r]), records[r].system_id) && all_late(
            records,
            path(records[r]),
            records[r].system_id,
            frames.last().now,
            stamps(frames)[0],
        ) ==> !play(records, frames).fired.last().contains(records[r].system_id),
{
    let whole = path(records[r]);
    let front = frames.drop_last();
    let last = frames.last();
    let at = inputs(front).len() as int;
    lemma_inputs_split(frames);
    assert(inputs(front) =~= whole.take(at));
    assert(inputs(front).is_prefix_of(whole));
    lemma_play_along(records, r, front);
    let before = play(records, front);
    lemma_step_along(records, r, before.times, last.now, last.input, at);
    let next = step(records, before.prefix, before.times, last.now, last.input);
    assert(play(records, frames).fired == before.fired.push(next.fired));
    if runs_no_earlier(records, whole, records[r].system_id) {
        assert forall|k: int| 0 <= k < frames.len() - 1 implies !(#[trigger] play(
            records,
            frames,
        ).fired[k]).contains(records[r].system_id) by {
            assert(play(records, frames).fired[k] == before.fired[k]);
        }
    }
}

/// At a dead end the search goes on from the root: the inputs from the one
/// that led nowhere on are taken exactly as a search at the root takes them.
pub proof fn lemma_dead_end_restarts(
    entries: Map<Seq<u64>, usize>,
    prefix: Seq<u64>,
    input: Seq<u64>,
)
    requires
        input.len() > 0,
        query(entries, prefix, input[0]) is None,
    ensures
        consume(entries, prefix, input) == consume(entries, Seq::empty(), input),
    decreases input.len(),
{
    let front = input.drop_last();
    if front.len() > 0 {
        assert(front[0] == input[0]);
        lemma_dead_end_restarts(entries, prefix, front);
    } else {
        assert(input.last() == input[0]);
        assert(consume(entries, prefix, front).prefix == prefix);
        assert(consume(entries, Seq::empty(), front).prefix == Seq::<u64>::empty());
    }
}

/// After a reset a context is fresh whatever stamps were kept for it: from the
/// root, a frame makes of any queue what it makes of the empty one.
pub proof fn lemma_root_forgets(
    records: Seq<InputSequenceView>,
    times: Seq<FrameTime>,
    now: FrameTime,
    input: Seq<u64>,
)
    ensures
        step(records, Seq::empty(), times, now, input) == step(
            records,
            Seq::empty(),
            Seq::empty(),
            now,
            input,
        ),
{
    assert(trim(times, 0) =~= Seq::<FrameTime>::empty());
    assert(trim(Seq::<FrameTime>::empty(), 0) =~= Seq::<FrameTime>::empty());
}

/// The acts of the sequence are the latest inputs once the first `n` inputs of
/// the frame have come, where `before` came in the frames before.
pub open spec fn ends_at(
    record: InputSequenceView,
    before: Seq<u64>,
    input: Seq<u64>,
    n: int,
) -> bool {
    0 < n <= input.len() && path(record).is_suffix_of(before + input.take(n))
}

/// The system is that of a sequence whose acts were seen from first to last,
/// the last of them in this frame.
pub open spec fn observed(
    records: Seq<InputSequenceView>,
    system: u64,
    before: Seq<u64>,
    input: Seq<u64>,
) -> bool {
    exists|j: int, n: int|
        0 <= j < records.len() && records[j].system_id == system && #[trigger] ends_at(
            records[j],
            before,
            input,
            n,
        )
}

/// Where the inputs that count are the latest of those that came, they still
/// are after one more, and a path that this one completes ends with it.
pub proof fn lemma_advance_latest(
    entries: Map<Seq<u64>, usize>,
    came: Seq<u64>,
    prefix: Seq<u64>,
    label: u64,
)
    requires
        prefix.is_suffix_of(came),
    ensures
        advance(entries, prefix, label).prefix.is_suffix_of(came.push(label)),
        advance(entries, prefix, label).done is Some ==> advance(
            entries,
            prefix,
            label,
        ).done->0.is_suffix_of(came.push(label)),
{
    let all = came.push(label);
    let next = prefix.push(label);
    assert(next =~= all.subrange(all.len() - next.len(), all.len() as int));
    assert(seq![label] =~= all.subrange(all.len() - 1, all.len() as int));
    assert(Seq::<u64>::empty().push(label) =~= seq![label]);
    assert(Seq::<u64>::empty() =~= all.subrange(all.len() as int, all.len() as int));
}

/// Through a frame the inputs that count stay the latest of those that came,
/// and every path completed ends with one of the inputs of the frame.
pub proof fn lemma_feed_latest(
    entries: Map<Seq<u64>, usize>,
    before: Seq<u64>,
    state: Progress,
    now: FrameTime,
    input: Seq<u64>,
)
    requires
        state.prefix.is_suffix_of(before),
        state.done.len() == 0,
    ensures
        feed_all(entries, state, now, input).prefix.is_suffix_of(before + input),
        forall|k: int|
            0 <= k < feed_all(entries, state, now, input).done.len() ==> exists|n: int|
                0 < n <= input.len() && (#[trigger] feed_all(
                    entries,
                    state,
                    now,
                    input,
                ).done[k]).path.is_suffix_of(before + #[trigger] input.take(n)),
    decreases input.len(),
{
    if input.len() == 0 {
        assert(before + input =~= before);
    } else {
        let front = input.drop_last();
        lemma_feed_latest(entries, before, state, now, front);
        let fed = feed_all(entries, state, now, front);
        let after = feed(entries, fed, now, input.last());
        assert(feed_all(entries, state, now, input) == after);
        lemma_advance_latest(entries, before + front, fed.prefix, input.last());
        assert((before + front).push(input.last()) =~= before + input);
        assert(input.take(input.len() as int) =~= input);
        assert forall|k: int| 0 <= k < after.done.len() implies exists|n: int|
            0 < n <= input.len() && (#[trigger] after.done[k]).path.is_suffix_of(
                before + #[trigger] input.take(n),
            ) by {
            if k < fed.done.len() {
                assert(after.done[k] == fed.done[k]);
                let n = choose|n: int|
                    0 < n <= front.len() && fed.done[k].path.is_suffix_of(
                        before + #[trigger] front.take(n),
                    );
                assert(front.take(n) =~= input.take(n));
            } else {
                assert(after.done[k].path.is_suffix_of(
                    before + input.take(input.len() as int),
                ));
            }
        }
    }
}

/// In one frame of a context whose inputs that count are the latest of those
/// that came, nothing is run but what was observed, and the inputs that count
/// afterwards are the latest again.
pub proof fn lemma_step_observed(
    records: Seq<InputSequenceView>,
    before: Seq<u64>,
    prefix: Seq<u64>,
    times: Seq<FrameTime>,
    now: FrameTime,
    input: Seq<u64>,
)
    requires
        prefix.is_suffix_of(before),
    ensures
        step(records, prefix, times, now, input).prefix.is_suffix_of(before + input),
        forall|system: u64| #[trigger]
            step(records, prefix, times, now, input).fired.contains(system) ==> observed(
                records,
                system,
                before,
                input,
            ),
{
    let begin = Progress { prefix, times: trim(times, prefix.len()), done: Seq::empty() };
    let entries = entries_of(records);
    lemma_feed_latest(entries, before, begin, now, input);
    let fed = feed_all(entries, begin, now, input);
    assert forall|system: u64| #[trigger]
        fired(records, fed.done, now).contains(system) implies observed(
        records,
        system,
        before,
        input,
    ) by {
        lemma_fired_only(records, fed.done, now, system);
        let k = choose|k: int|
            0 <= k < fed.done.len() && #[trigger] firing(
                records,
                fed.done[k].path,
                now,
                fed.done[k].start,
            ).contains(system);
        lemma_firing_only(records, fed.done[k].path, now, fed.done[k].start, system);
        let j = choose|j: int|
            0 <= j < records.len() && #[trigger] path(records[j]) == fed.done[k].path
                && records[j].system_id == system && !timed_out(
                now,
                fed.done[k].start,
                records[j].time_limit,
            );
        let n = choose|n: int|
            0 < n <= input.len() && fed.done[k].path.is_suffix_of(
                before + #[trigger] input.take(n),
            );
        assert(ends_at(records[j], before, input, n));
    }
}

/// From a fresh context on, whatever the frames bring: a frame runs a system
/// only for a sequence whose acts, from the first to the last, were the
/// inputs up to one of that frame. Nothing that came before the context was
/// fresh counts.
pub proof fn lemma_only_observed_runs(records: Seq<InputSequenceView>, frames: Seq<Frame>)
    ensures
        play(records, frames).prefix.is_suffix_of(inputs(frames)),
        play(records, frames).fired.len() == frames.len(),
        forall|k: int, system: u64|
            0 <= k < frames.len() && #[trigger] play(records, frames).fired[k].contains(system)
                ==> observed(records, system, inputs(frames.take(k)), frames[k].input),
    decreases frames.len(),
{
    if frames.len() > 0 {
        let front = frames.drop_last();
        let last = frames.last();
        lemma_only_observed_runs(records, front);
        let before = play(records, front);
        lemma_step_observed(
            records,
            inputs(front),
            before.prefix,
            before.times,
            last.now,
            last.input,
        );
        let next = step(records, before.prefix, before.times, last.now, last.input);
        assert(play(records, frames).fired == before.fired.push(next.fired));
        assert forall|k: int, system: u64|
            0 <= k < frames.len() && #[trigger] play(records, frames).fired[k].contains(
                system,
            ) implies observed(records, system, inputs(frames.take(k)), frames[k].input) by {
            if k < front.len() {
                assert(play(records, frames).fired[k] == before.fired[k]);
                assert(front.take(k) =~= frames.take(k));
                assert(front[k] == frames[k]);
            } else {
                assert(frames.take(k) =~= front);
            }
        }
    } else {
        assert(Seq::<u64>::empty().is_suffix_of(inputs(frames)));
    }
}

} // verus!
