//! The matcher: what runs once a frame, for the keyboard and for each
//! controller.
use crate::act::{codes, Act, GamepadButton};
use crate::cache::button::ButtonSequenceCache;
use crate::cache::key::{KeySequenceCache, KEYBOARD};
use crate::cache::InputSequenceCache;
use crate::chord::{is_modifier, KeyChord, KeyChordQueue};
use crate::frame_time::{is_late, FrameTime};
use crate::input_sequence::{views, InputSequence, InputSequenceView};
use crate::key_code::KeyCode;
use crate::model::{
    advance, consume, entries_of, feed, feed_all, fired, firing, lemma_entries_of, path, step,
    trim, Completed, Progress,
};
use crate::modifiers::Modifiers;
use crate::trie::{
    search_entries, search_position, search_prefix, search_prefix_len, search_query, search_reset,
    search_value,
};
use std::collections::HashMap;
use std::collections::VecDeque;
use trie_rs::inc_search::{Answer, IncSearch};
use vstd::prelude::*;

verus! {

/// One input for a search: the query, and at a dead end the same query from the
/// root, so that the input may begin a new sequence. Returns the value of the
/// path that the input completed, if it completed one.
pub fn query_or_restart(search: &mut IncSearch<u64, usize>, label: u64) -> (found: Option<usize>)
    ensures
        search_entries(*final(search)) == search_entries(*old(search)),
        search_prefix(*final(search)) == advance(
            search_entries(*old(search)),
            search_prefix(*old(search)),
            label,
        ).prefix,
        found == match advance(
            search_entries(*old(search)),
            search_prefix(*old(search)),
            label,
        ).done {
            Some(done) => Some(search_entries(*old(search))[done]),
            None => None,
        },
        found is Some ==> search_entries(*old(search)).contains_key(
            advance(search_entries(*old(search)), search_prefix(*old(search)), label).done->0,
        ),
{
    match search_query(search, label) {
        Some(Answer::Match) => {
            let found = search_value(search);
            search_reset(search);
            found
        },
        Some(Answer::PrefixAndMatch) => search_value(search),
        Some(Answer::Prefix) => None,
        None => {
            search_reset(search);
            // This could be the start of a new sequence.
            match search_query(search, label) {
                Some(Answer::Match) => {
                    let found = search_value(search);
                    search_reset(search);
                    found
                },
                Some(Answer::PrefixAndMatch) => search_value(search),
                Some(Answer::Prefix) => None,
                None => {
                    search_reset(search);
                    None
                },
            }
        },
    }
}

/// Feeds the input to the search, label after label, and returns the value of
/// each path that was completed on the way.
pub fn inc_consume_input(search: &mut IncSearch<u64, usize>, input: &Vec<u64>) -> (found: Vec<
    usize,
>)
    ensures
        search_entries(*final(search)) == search_entries(*old(search)),
        search_prefix(*final(search)) == consume(
            search_entries(*old(search)),
            search_prefix(*old(search)),
            input@,
        ).prefix,
        found@ == consume(
            search_entries(*old(search)),
            search_prefix(*old(search)),
            input@,
        ).found,
{
    let ghost entries = search_entries(*search);
    let ghost prefix = search_prefix(*search);
    let mut found: Vec<usize> = Vec::new();
    let mut i: usize = 0;
    while i < input.len()
        invariant
            i <= input@.len(),
            search_entries(*search) == entries,
            search_prefix(*search) == consume(entries, prefix, input@.take(i as int)).prefix,
            found@ == consume(entries, prefix, input@.take(i as int)).found,
        decreases input@.len() - i,
    {
        assert(input@.take(i + 1).drop_last() == input@.take(i as int));
        match query_or_restart(search, input[i]) {
            Some(value) => {
                found.push(value);
            },
            None => {},
        }
        i += 1;
    }
    assert(input@.take(i as int) == input@);
    found
}

/// A completed path as the trie gave it: the value at the path, and the stamp
/// from which the time limits of its sequences count.
#[derive(Clone, Copy, Debug)]
pub struct Hit {
    /// The value of the trie at the completed path.
    pub value: usize,
    /// The stamp at the front of the queue when the path was completed.
    pub start: FrameTime,
}

/// The hits are the completed paths `done`, as the index `entries` holds them.
pub open spec fn hits_match(hits: Seq<Hit>, done: Seq<Completed>, entries: Map<Seq<u64>, usize>) -> bool {
    &&& hits.len() == done.len()
    &&& forall|j: int|
        0 <= j < hits.len() ==> {
            &&& (#[trigger] hits[j]).start == done[j].start
            &&& entries.contains_key(done[j].path)
            &&& hits[j].value == entries[done[j].path]
        }
}

/// Cuts the queue from the front down to its last `keep` stamps.
pub fn trim_front(times: &mut VecDeque<FrameTime>, keep: usize)
    ensures
        final(times)@ == trim(old(times)@, keep as nat),
{
    while times.len() > keep
        invariant
            times@.len() <= old(times)@.len(),
            times@.len() >= keep || times@.len() == old(times)@.len(),
            times@ == old(times)@.skip(old(times)@.len() - times@.len()),
        decreases times@.len(),
    {
        let _ = times.pop_front();
        assert(times@ =~= old(times)@.skip(old(times)@.len() - times@.len()));
    }
    assert(old(times)@.skip(0) == old(times)@);
}

/// The inputs of one frame for one search: each with its stamp pushed, its
/// completed path noted, and the queue emptied where the input led nowhere.
fn feed_inputs(
    search: &mut IncSearch<u64, usize>,
    input: &Vec<Act>,
    now: FrameTime,
    times: &mut VecDeque<FrameTime>,
) -> (hits: Vec<Hit>)
    ensures
        search_entries(*final(search)) == search_entries(*old(search)),
        ({
            let fed = feed_all(
                search_entries(*old(search)),
                Progress {
                    prefix: search_prefix(*old(search)),
                    times: old(times)@,
                    done: Seq::empty(),
                },
                now,
                codes(input@),
            );
            &&& search_prefix(*final(search)) == fed.prefix
            &&& final(times)@ == fed.times
            &&& hits_match(hits@, fed.done, search_entries(*old(search)))
        }),
{
    let ghost entries = search_entries(*search);
    let ghost start = Progress {
        prefix: search_prefix(*search),
        times: times@,
        done: Seq::empty(),
    };
    let ghost labels = codes(input@);
    let mut hits: Vec<Hit> = Vec::new();
    let mut i: usize = 0;
    while i < input.len()
        invariant
            i <= input@.len(),
            labels == codes(input@),
            search_entries(*search) == entries,
            search_prefix(*search) == feed_all(entries, start, now, labels.take(i as int)).prefix,
            times@ == feed_all(entries, start, now, labels.take(i as int)).times,
            hits_match(hits@, feed_all(entries, start, now, labels.take(i as int)).done, entries),
        decreases input@.len() - i,
    {
        assert(labels.take(i + 1).drop_last() == labels.take(i as int));
        assert(labels.take(i + 1).last() == input@[i as int].code());
        let ghost before = feed_all(entries, start, now, labels.take(i as int));
        let ghost after = feed(entries, before, now, input@[i as int].code());
        assert(feed_all(entries, start, now, labels.take(i + 1)) == after);
        let ghost noted = hits@;
        times.push_back(now);
        let first = times[0];
        match query_or_restart(search, input[i].to_code()) {
            Some(value) => {
                hits.push(Hit { value, start: first });
                proof {
                    let done = advance(entries, before.prefix, input@[i as int].code()).done->0;
                    assert(after.done == before.done.push(Completed { path: done, start: first }));
                    assert forall|j: int| 0 <= j < hits@.len() implies {
                        &&& (#[trigger] hits@[j]).start == after.done[j].start
                        &&& entries.contains_key(after.done[j].path)
                        &&& hits@[j].value == entries[after.done[j].path]
                    } by {
                        if j < noted.len() {
                            assert(hits@[j] == noted[j]);
                            assert(after.done[j] == before.done[j]);
                        }
                    }
                }
            },
            None => {
                if search_prefix_len(search) == 0 {
                    times.clear();
                }
                assert(after.done == before.done);
            },
        }
        assert(hits_match(hits@, after.done, entries));
        i += 1;
    }
    assert(labels.take(i as int) == labels);
    hits
}

/// The two sequences of acts have one path.
fn same_path(a: &Vec<Act>, b: &Vec<Act>) -> (same: bool)
    ensures
        same == (codes(a@) == codes(b@)),
{
    if a.len() != b.len() {
        assert(codes(a@).len() != codes(b@).len());
        return false;
    }
    let mut i: usize = 0;
    while i < a.len()
        invariant
            i <= a@.len(),
            a@.len() == b@.len(),
            forall|j: int| 0 <= j < i ==> a@[j].code() == b@[j].code(),
        decreases a@.len() - i,
    {
        if a[i].to_code() != b[i].to_code() {
            assert(codes(a@)[i as int] != codes(b@)[i as int]);
            return false;
        }
        i += 1;
    }
    assert(codes(a@) =~= codes(b@));
    true
}

/// Adds to `out` the systems of the sequences that share the path of the
/// sequence at `value`, in order, leaving out those that are too late.
fn fire_one(
    sequences: &Vec<InputSequence>,
    value: usize,
    now: &FrameTime,
    start: &FrameTime,
    out: &mut Vec<u64>,
)
    requires
        value < sequences@.len(),
    ensures
        final(out)@ == old(out)@ + firing(
            views(sequences@),
            path(sequences@[value as int]@),
            *now,
            *start,
        ),
{
    let ghost records = views(sequences@);
    let ghost done = path(sequences@[value as int]@);
    let acts = sequences[value].acts();
    let mut k: usize = 0;
    while k < sequences.len()
        invariant
            k <= sequences@.len(),
            value < sequences@.len(),
            records == views(sequences@),
            done == codes(acts@),
            out@ == old(out)@ + firing(records.take(k as int), done, *now, *start),
        decreases sequences@.len() - k,
    {
        assert(records.take(k + 1).drop_last() == records.take(k as int));
        assert(records.take(k + 1).last() == sequences@[k as int]@);
        let sequence = &sequences[k];
        if same_path(sequence.acts(), acts) {
            let limit = sequence.time_limit();
            if !is_late(now, start, &limit) {
                out.push(sequence.system_id());
            }
        }
        assert(out@ =~= old(out)@ + firing(records.take(k + 1), done, *now, *start));
        k += 1;
    }
    assert(records.take(k as int) == records);
}

/// The systems that the hits run, hit after hit.
fn fire(
    sequences: &Vec<InputSequence>,
    hits: &Vec<Hit>,
    now: &FrameTime,
    Ghost(done): Ghost<Seq<Completed>>,
) -> (out: Vec<u64>)
    requires
        hits_match(hits@, done, entries_of(views(sequences@))),
    ensures
        out@ == fired(views(sequences@), done, *now),
{
    let ghost records = views(sequences@);
    let count = sequences.len();
    let mut out: Vec<u64> = Vec::new();
    let mut j: usize = 0;
    while j < hits.len()
        invariant
            j <= hits@.len(),
            count == sequences@.len(),
            records == views(sequences@),
            hits_match(hits@, done, entries_of(records)),
            out@ == fired(records, done.take(j as int), *now),
        decreases hits@.len() - j,
    {
        assert(done.take(j + 1).drop_last() == done.take(j as int));
        assert(done.take(j + 1).last() == done[j as int]);
        let hit = hits[j];
        proof {
            lemma_entries_of(records);
            assert(entries_of(records).contains_key(done[j as int].path));
        }
        fire_one(sequences, hit.value, now, &hit.start, &mut out);
        j += 1;
    }
    assert(done.take(j as int) == done);
    out
}

/// One frame of the context `key`: resumes its search, feeds it the input of
/// the frame, keeps the stamps of the inputs that still count, stores the
/// search, and returns the systems to run, in order.
pub fn match_inputs(
    cache: &mut InputSequenceCache,
    key: u64,
    sequences: &Vec<InputSequence>,
    now: FrameTime,
    input: &Vec<Act>,
    last_times: &mut VecDeque<FrameTime>,
) -> (systems: Vec<u64>)
    ensures
        final(cache).is_built(),
        final(cache).records() == if old(cache).is_built() {
            old(cache).records()
        } else {
            views(sequences@)
        },
        forall|other: u64|
            other != key ==> final(cache).cursor(other) == old(cache).cursor(other),
        final(cache).cursor(key) == step(
            final(cache).records(),
            old(cache).cursor(key),
            old(last_times)@,
            now,
            codes(input@),
        ).prefix,
        final(last_times)@ == step(
            final(cache).records(),
            old(cache).cursor(key),
            old(last_times)@,
            now,
            codes(input@),
        ).times,
        systems@ == step(
            final(cache).records(),
            old(cache).cursor(key),
            old(last_times)@,
            now,
            codes(input@),
        ).fired,
{
    let ghost prefix = cache.cursor(key);
    let mut search = cache.recall(key, sequences);
    let ghost entries = search_entries(search);
    trim_front(last_times, search_prefix_len(&search));
    let ghost begin = Progress { prefix, times: last_times@, done: Seq::empty() };
    let hits = feed_inputs(&mut search, input, now, last_times);
    let ghost fed = feed_all(entries, begin, now, codes(input@));
    trim_front(last_times, search_prefix_len(&search));
    let position = search_position(search);
    cache.store(key, position);
    fire(cache.sequences(), &hits, &now, Ghost(fed.done))
}

/// The acts of the chords, one for one.
pub open spec fn queued_acts(chords: Seq<KeyChord>) -> Seq<Act> {
    Seq::new(chords.len(), |i: int| Act::KeyChord(chords[i].0, chords[i].1))
}

/// The chords that the keys make with `mods` held, in order; a modifier key
/// makes none.
pub open spec fn pressed_chords(mods: Modifiers, keys: Seq<KeyCode>) -> Seq<Act>
    decreases keys.len(),
{
    if keys.len() == 0 {
        Seq::empty()
    } else if Modifiers::of_key(keys.last()).0 != 0 {
        pressed_chords(mods, keys.drop_last())
    } else {
        pressed_chords(mods, keys.drop_last()).push(Act::KeyChord(mods, keys.last()))
    }
}

/// The keyboard's frame. Its input is the queued chords, then the chords of
/// the keys just pressed with `mods` held. Without input nothing changes; with
/// input the frame is that of `match_inputs` for the keyboard's context. The
/// queue of chords is left empty.
pub fn key_sequence_matcher(
    sequences: &Vec<InputSequence>,
    now: FrameTime,
    mods: Modifiers,
    just_pressed: &Vec<KeyCode>,
    last_times: &mut VecDeque<FrameTime>,
    cache: &mut KeySequenceCache,
    keychord_queue: &mut KeyChordQueue,
) -> (systems: Vec<u64>)
    ensures
        final(keychord_queue).0@ == Seq::<KeyChord>::empty(),
        ({
            let input = queued_acts(old(keychord_queue).0@) + pressed_chords(mods, just_pressed@);
            let records = if old(cache).0.is_built() {
                old(cache).0.records()
            } else {
                views(sequences@)
            };
            let next = step(
                records,
                old(cache).0.cursor(KEYBOARD),
                old(last_times)@,
                now,
                codes(input),
            );
            if input.len() == 0 {
                &&& *final(cache) == *old(cache)
                &&& final(last_times)@ == old(last_times)@
                &&& systems@ == Seq::<u64>::empty()
            } else {
                &&& final(cache).0.is_built()
                &&& final(cache).0.records() == records
                &&& forall|other: u64|
                    other != KEYBOARD ==> final(cache).0.cursor(other) == old(cache).0.cursor(other)
                &&& final(cache).0.cursor(KEYBOARD) == next.prefix
                &&& final(last_times)@ == next.times
                &&& systems@ == next.fired
            }
        }),
{
    let ghost queued = keychord_queue.0@;
    let mut input: Vec<Act> = Vec::new();
    while keychord_queue.0.len() > 0
        invariant
            input@ + queued_acts(keychord_queue.0@) == queued_acts(queued),
        decreases keychord_queue.0@.len(),
    {
        let ghost rest = keychord_queue.0@;
        let ghost taken = input@;
        let chord = keychord_queue.0.pop_front().unwrap();
        input.push(Act::KeyChord(chord.0, chord.1));
        assert(input@ + queued_acts(keychord_queue.0@) =~= taken + queued_acts(rest));
    }
    assert(input@ =~= queued_acts(queued));
    let mut i: usize = 0;
    while i < just_pressed.len()
        invariant
            i <= just_pressed@.len(),
            input@ == queued_acts(queued) + pressed_chords(mods, just_pressed@.take(i as int)),
        decreases just_pressed@.len() - i,
    {
        assert(just_pressed@.take(i + 1).drop_last() == just_pressed@.take(i as int));
        let key = just_pressed[i];
        if !is_modifier(key) {
            input.push(Act::KeyChord(mods, key));
        }
        assert(input@ =~= queued_acts(queued) + pressed_chords(
            mods,
            just_pressed@.take(i + 1),
        ));
        i += 1;
    }
    assert(just_pressed@.take(i as int) == just_pressed@);
    if input.len() == 0 {
        return Vec::new();
    }
    match_inputs(&mut cache.0, KEYBOARD, sequences, now, &input, last_times)
}

/// The acts of the buttons, one for one.
pub open spec fn button_acts(buttons: Seq<GamepadButton>) -> Seq<Act> {
    Seq::new(buttons.len(), |i: int| Act::PadButton(buttons[i]))
}

/// Each system with the controller it is run for.
pub open spec fn for_pad(systems: Seq<u64>, pad: u64) -> Seq<(u64, u64)> {
    Seq::new(systems.len(), |i: int| (systems[i], pad))
}

/// The controllers' contexts in the course of a frame.
pub struct Pads {
    /// The trie stands.
    pub built: bool,
    /// For each controller, the inputs that still count.
    pub cursors: spec_fn(u64) -> Seq<u64>,
    /// For each controller, the stamps of those inputs.
    pub times: spec_fn(u64) -> Seq<FrameTime>,
    /// The systems to run, each with its controller, in order.
    pub runs: Seq<(u64, u64)>,
}

/// The frame of the controllers, one after the other: a controller without a
/// button just pressed is passed over; every other has the frame of
/// `match_inputs` for its own context, with its buttons as input.
pub open spec fn pads_step(
    records: Seq<InputSequenceView>,
    state: Pads,
    now: FrameTime,
    pads: Seq<(u64, Vec<GamepadButton>)>,
) -> Pads
    decreases pads.len(),
{
    if pads.len() == 0 {
        state
    } else {
        let before = pads_step(records, state, now, pads.drop_last());
        let pad = pads.last().0;
        let buttons = pads.last().1@;
        if buttons.len() == 0 {
            before
        } else {
            let next = step(
                records,
                (before.cursors)(pad),
                (before.times)(pad),
                now,
                codes(button_acts(buttons)),
            );
            Pads {
                built: true,
                cursors: |other: u64|
                    if other == pad {
                        next.prefix
                    } else {
                        (before.cursors)(other)
                    },
                times: |other: u64|
                    if other == pad {
                        next.times
                    } else {
                        (before.times)(other)
                    },
                runs: before.runs + for_pad(next.fired, pad),
            }
        }
    }
}

/// The stamps kept for a controller: none where the map has no queue for it.
pub open spec fn queue_of(times: Map<u64, VecDeque<FrameTime>>, pad: u64) -> Seq<FrameTime> {
    if times.contains_key(pad) {
        times[pad]@
    } else {
        Seq::empty()
    }
}

/// The controllers' frame: `pads_step` over the controllers, each given with
/// the buttons just pressed on it. Returns the systems to run, each with the
/// controller it is run for.
pub fn button_sequence_matcher(
    sequences: &Vec<InputSequence>,
    now: FrameTime,
    last_times: &mut HashMap<u64, VecDeque<FrameTime>>,
    cache: &mut ButtonSequenceCache,
    gamepads: &Vec<(u64, Vec<GamepadButton>)>,
) -> (runs: Vec<(u64, u64)>)
    ensures
        ({
            let records = if old(cache).0.is_built() {
                old(cache).0.records()
            } else {
                views(sequences@)
            };
            let next = pads_step(
                records,
                Pads {
                    built: old(cache).0.is_built(),
                    cursors: |pad: u64| old(cache).0.cursor(pad),
                    times: |pad: u64| queue_of(old(last_times)@, pad),
                    runs: Seq::empty(),
                },
                now,
                gamepads@,
            );
            &&& final(cache).0.is_built() == next.built
            &&& final(cache).0.records() == if next.built {
                records
            } else {
                old(cache).0.records()
            }
            &&& forall|pad: u64| #[trigger] final(cache).0.cursor(pad) == (next.cursors)(pad)
            &&& forall|pad: u64| #[trigger]
                queue_of(final(last_times)@, pad) == (next.times)(pad)
            &&& runs@ == next.runs
        }),
{
    let ghost records = if cache.0.is_built() {
        cache.0.records()
    } else {
        views(sequences@)
    };
    let ghost begin = Pads {
        built: cache.0.is_built(),
        cursors: |pad: u64| old(cache).0.cursor(pad),
        times: |pad: u64| queue_of(old(last_times)@, pad),
        runs: Seq::empty(),
    };
    let ghost unbuilt = cache.0.records();
    let mut runs: Vec<(u64, u64)> = Vec::new();
    let mut g: usize = 0;
    while g < gamepads.len()
        invariant
            g <= gamepads@.len(),
            cache.0.is_built() == pads_step(records, begin, now, gamepads@.take(g as int)).built,
            cache.0.is_built() ==> cache.0.records() == records,
            !cache.0.is_built() ==> cache.0.records() == unbuilt && records == views(sequences@),
            forall|pad: u64| #[trigger]
                cache.0.cursor(pad) == (pads_step(
                    records,
                    begin,
                    now,
                    gamepads@.take(g as int),
                ).cursors)(pad),
            forall|pad: u64| #[trigger]
                queue_of(last_times@, pad) == (pads_step(
                    records,
                    begin,
                    now,
                    gamepads@.take(g as int),
                ).times)(pad),
            runs@ == pads_step(records, begin, now, gamepads@.take(g as int)).runs,
        decreases gamepads@.len() - g,
    {
        assert(gamepads@.take(g + 1).drop_last() == gamepads@.take(g as int));
        assert(gamepads@.take(g + 1).last() == gamepads@[g as int]);
        let ghost before = pads_step(records, begin, now, gamepads@.take(g as int));
        let pad = gamepads[g].0;
        let buttons = &gamepads[g].1;
        if buttons.len() > 0 {
            let mut acts: Vec<Act> = Vec::new();
            let mut b: usize = 0;
            while b < buttons.len()
                invariant
                    b <= buttons@.len(),
                    acts@ == button_acts(buttons@.take(b as int)),
                decreases buttons@.len() - b,
            {
                acts.push(Act::PadButton(buttons[b]));
                assert(acts@ =~= button_acts(buttons@.take(b + 1)));
                b += 1;
            }
            assert(buttons@.take(b as int) == buttons@);
            let ghost held = last_times@;
            let mut queue = match last_times.remove(&pad) {
                Some(queue) => queue,
                None => VecDeque::new(),
            };
            let ghost others = last_times@;
            assert(queue@ == queue_of(held, pad));
            assert(queue@ == (before.times)(pad));
            let systems = match_inputs(&mut cache.0, pad, sequences, now, &acts, &mut queue);
            last_times.insert(pad, queue);
            let ghost next = step(
                records,
                (before.cursors)(pad),
                (before.times)(pad),
                now,
                codes(button_acts(buttons@)),
            );
            let ghost added = runs@;
            let mut s: usize = 0;
            while s < systems.len()
                invariant
                    s <= systems@.len(),
                    runs@ == added + for_pad(systems@.take(s as int), pad),
                decreases systems@.len() - s,
            {
                runs.push((systems[s], pad));
                assert(runs@ =~= added + for_pad(systems@.take(s + 1), pad));
                s += 1;
            }
            assert(systems@.take(s as int) == systems@);
            assert forall|other: u64| other != pad implies #[trigger] queue_of(
                last_times@,
                other,
            ) == (before.times)(other) by {
                assert(queue_of(last_times@, other) == queue_of(others, other));
                assert(queue_of(others, other) == queue_of(held, other));
            }
        }
        g += 1;
    }
    assert(gamepads@.take(g as int) == gamepads@);
    runs
}

/// Sequences were added: the cache for key sequences is reset where `added`
/// counts any.
pub fn detect_key_additions(added: usize, cache: &mut KeySequenceCache)
    ensures
        added == 0 ==> *final(cache) == *old(cache),
        added > 0 ==> !final(cache).0.is_built() && final(cache).0.records() == Seq::<
            InputSequenceView,
        >::empty() && forall|key: u64| final(cache).0.cursor(key) == Seq::<u64>::empty(),
{
    if added > 0 {
        cache.reset();
    }
}

/// Sequences were added: the cache for button sequences is reset where
/// `added` counts any.
pub fn detect_button_additions(added: usize, cache: &mut ButtonSequenceCache)
    ensures
        added == 0 ==> *final(cache) == *old(cache),
        added > 0 ==> !final(cache).0.is_built() && final(cache).0.records() == Seq::<
            InputSequenceView,
        >::empty() && forall|key: u64| final(cache).0.cursor(key) == Seq::<u64>::empty(),
{
    if added > 0 {
        cache.reset();
    }
}

/// Sequences were removed: the cache for key sequences is reset where
/// `removed` counts any.
pub fn detect_key_removals(cache: &mut KeySequenceCache, removed: usize)
    ensures
        removed == 0 ==> *final(cache) == *old(cache),
        removed > 0 ==> !final(cache).0.is_built() && final(cache).0.records() == Seq::<
            InputSequenceView,
        >::empty() && forall|key: u64| final(cache).0.cursor(key) == Seq::<u64>::empty(),
{
    if removed > 0 {
        cache.reset();
    }
}

/// Sequences were removed: the cache for button sequences is reset where
/// `removed` counts any.
pub fn detect_button_removals(cache: &mut ButtonSequenceCache, removed: usize)
    ensures
        removed == 0 ==> *final(cache) == *old(cache),
        removed > 0 ==> !final(cache).0.is_built() && final(cache).0.records() == Seq::<
            InputSequenceView,
        >::empty() && forall|key: u64| final(cache).0.cursor(key) == Seq::<u64>::empty(),
{
    if removed > 0 {
        cache.reset();
    }
}

/// The schedule in which the matchers run where no other is named.
pub const UPDATE: u64 = 0;

/// Which of the two matchers a chain of systems belongs to.
#[derive(Clone, Copy, Debug, PartialEq, Eq, Structural)]
pub enum Matcher {
    /// Removals, additions, then the matcher, for key sequences.
    Key,
    /// Removals, additions, then the matcher, for button sequences.
    Button,
}

/// One chain of systems to add to the host: the schedule, the set within it
/// if one was named, and the matcher.
#[derive(Clone, Copy, Debug, PartialEq, Eq, Structural)]
pub struct Chain {
    /// The schedule to run in.
    pub schedule: u64,
    /// The set of systems to run in.
    pub set: Option<u64>,
    /// The matcher that runs.
    pub matcher: Matcher,
}

/// The plugin: where the matchers run, and which of them.
pub struct InputSequencePlugin {
    schedules: Vec<(u64, Option<u64>)>,
    match_key: Option<bool>,
    match_button: Option<bool>,
}

/// What a plugin holds.
pub struct InputSequencePluginView {
    /// The schedules to run in, each with the set named for it.
    pub schedules: Seq<(u64, Option<u64>)>,
    /// Whether to match keys, where it was said.
    pub match_key: Option<bool>,
    /// Whether to match buttons, where it was said.
    pub match_button: Option<bool>,
}

impl View for InputSequencePlugin {
    type V = InputSequencePluginView;

    closed spec fn view(&self) -> InputSequencePluginView {
        InputSequencePluginView {
            schedules: self.schedules@,
            match_key: self.match_key,
            match_button: self.match_button,
        }
    }
}

/// One chain of `matcher` for each schedule, in order.
pub open spec fn chains(schedules: Seq<(u64, Option<u64>)>, matcher: Matcher) -> Seq<Chain> {
    Seq::new(
        schedules.len(),
        |i: int| Chain { schedule: schedules[i].0, set: schedules[i].1, matcher },
    )
}

impl InputSequencePluginView {
    /// Keys are matched where that was asked for, and, where nothing was said,
    /// where the host has keyboard input.
    pub open spec fn matches_keys(self, keyboard: bool) -> bool {
        match self.match_key {
            Some(yes) => yes,
            None => keyboard,
        }
    }

    /// Buttons are matched only where that was asked for.
    pub open spec fn matches_buttons(self) -> bool {
        match self.match_button {
            Some(yes) => yes,
            None => false,
        }
    }

    /// What the plugin adds to the host: the chains for keys in every
    /// schedule, then those for buttons, each kind only where it is matched.
    pub open spec fn build(self, keyboard: bool) -> Seq<Chain> {
        (if self.matches_keys(keyboard) {
            chains(self.schedules, Matcher::Key)
        } else {
            Seq::empty()
        }) + (if self.matches_buttons() {
            chains(self.schedules, Matcher::Button)
        } else {
            Seq::empty()
        })
    }
}

impl Default for InputSequencePlugin {
    /// A plugin that runs in `UPDATE`.
    fn default() -> (plugin: InputSequencePlugin)
        ensures
            plugin@ == (InputSequencePluginView {
                schedules: seq![(UPDATE, None::<u64>)],
                match_key: None,
                match_button: None,
            }),
    {
        let mut schedules: Vec<(u64, Option<u64>)> = Vec::new();
        schedules.push((UPDATE, None));
        assert(schedules@ =~= seq![(UPDATE, None::<u64>)]);
        InputSequencePlugin { schedules, match_key: None, match_button: None }
    }
}

impl InputSequencePlugin {
    /// A plugin without a schedule.
    pub fn empty() -> (plugin: InputSequencePlugin)
        ensures
            plugin@ == (InputSequencePluginView {
                schedules: Seq::empty(),
                match_key: None,
                match_button: None,
            }),
    {
        InputSequencePlugin { schedules: Vec::new(), match_key: None, match_button: None }
    }

    /// Runs the matchers in `schedule` too.
    pub fn run_in(self, schedule: u64) -> (plugin: InputSequencePlugin)
        ensures
            plugin@ == (InputSequencePluginView {
                schedules: self@.schedules.push((schedule, None::<u64>)),
                ..self@
            }),
    {
        let mut plugin = self;
        plugin.schedules.push((schedule, None));
        plugin
    }

    /// Runs the matchers in `schedule` too, within `set`.
    pub fn run_in_set(self, schedule: u64, set: u64) -> (plugin: InputSequencePlugin)
        ensures
            plugin@ == (InputSequencePluginView {
                schedules: self@.schedules.push((schedule, Some(set))),
                ..self@
            }),
    {
        let mut plugin = self;
        plugin.schedules.push((schedule, Some(set)));
        plugin
    }

    /// Says whether to match keys. Where nothing is said, keys are matched if
    /// the host has keyboard input.
    pub fn match_key(self, yes: bool) -> (plugin: InputSequencePlugin)
        ensures
            plugin@ == (InputSequencePluginView { match_key: Some(yes), ..self@ }),
    {
        let mut plugin = self;
        plugin.match_key = Some(yes);
        plugin
    }

    /// Says whether to match buttons. Where nothing is said, they are not.
    pub fn match_button(self, yes: bool) -> (plugin: InputSequencePlugin)
        ensures
            plugin@ == (InputSequencePluginView { match_button: Some(yes), ..self@ }),
    {
        let mut plugin = self;
        plugin.match_button = Some(yes);
        plugin
    }

    /// The chains of systems to add to the host, which has keyboard input or
    /// has none.
    pub fn build(&self, keyboard: bool) -> (added: Vec<Chain>)
        ensures
            added@ == self@.build(keyboard),
    {
        let mut added: Vec<Chain> = Vec::new();
        let keys = match self.match_key {
            Some(yes) => yes,
            None => keyboard,
        };
        if keys {
            self.add_chains(Matcher::Key, &mut added);
        }
        let buttons = match self.match_button {
            Some(yes) => yes,
            None => false,
        };
        if buttons {
            self.add_chains(Matcher::Button, &mut added);
        }
        added
    }

    fn add_chains(&self, matcher: Matcher, added: &mut Vec<Chain>)
        ensures
            final(added)@ == old(added)@ + chains(self@.schedules, matcher),
    {
        let mut i: usize = 0;
        while i < self.schedules.len()
            invariant
                i <= self.schedules@.len(),
                added@ == old(added)@ + chains(self.schedules@.take(i as int), matcher),
            decreases self.schedules@.len() - i,
        {
            let entry = self.schedules[i];
            added.push(Chain { schedule: entry.0, set: entry.1, matcher });
            assert(added@ =~= old(added)@ + chains(self.schedules@.take(i + 1), matcher));
            i += 1;
        }
        assert(self.schedules@.take(i as int) == self.schedules@);
    }
}

} // verus!
