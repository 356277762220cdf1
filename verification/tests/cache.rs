use input_sequence::cache::button::ButtonSequenceCache;
use input_sequence::cache::key::KeySequenceCache;
use input_sequence::cache::{act_codes, InputSequenceCache};
use input_sequence::input_sequence::InputSequence;
use input_sequence::plugin::{
    button_sequence_matcher, detect_button_additions, detect_button_removals,
    detect_key_additions, detect_key_removals, inc_consume_input, key_sequence_matcher,
    match_inputs, query_or_restart, trim_front, Chain, Matcher, UPDATE,
};
use input_sequence::frame_time::is_late;
use input_sequence::{
    Act, FrameTime, GamepadButton, InputSequencePlugin, KeyChord, KeyChordQueue, KeyCode,
    Modifiers, TimeLimit,
};
use std::collections::{HashMap, VecDeque};
use std::time::Duration;
use trie_rs::inc_search::{Answer, Position};

fn at(frame: u32) -> FrameTime {
    FrameTime {
        frame,
        time: Duration::from_millis(10 * frame as u64),
    }
}

fn keys(keys: &[KeyCode]) -> Vec<Act> {
    keys.iter().map(|key| Act::from(*key)).collect()
}

fn sequence(system: u64, acts: &[KeyCode]) -> InputSequence {
    InputSequence::new(system, keys(acts)).build().unwrap()
}

fn code(key: KeyCode) -> u64 {
    Act::from(key).to_code()
}

fn sample() -> Vec<InputSequence> {
    vec![
        sequence(10, &[KeyCode::KeyA]),
        sequence(11, &[KeyCode::KeyA, KeyCode::KeyB]),
        sequence(12, &[KeyCode::KeyC, KeyCode::KeyD]),
    ]
}

#[test]
fn trie_holds_the_place_of_each_sequence() {
    let sequences = sample();
    let mut cache = InputSequenceCache::new();
    let trie = cache.trie(&sequences);
    assert_eq!(trie.exact_match(vec![code(KeyCode::KeyA)]), Some(&0));
    assert_eq!(
        trie.exact_match(vec![code(KeyCode::KeyA), code(KeyCode::KeyB)]),
        Some(&1)
    );
    assert_eq!(
        trie.exact_match(vec![code(KeyCode::KeyC), code(KeyCode::KeyD)]),
        Some(&2)
    );
    assert_eq!(trie.exact_match(vec![code(KeyCode::KeyC)]), None);
    assert_eq!(cache.sequences().len(), 3);
}

#[test]
fn trie_keeps_the_last_of_two_sequences_with_one_path() {
    let sequences = vec![sequence(1, &[KeyCode::KeyA]), sequence(2, &[KeyCode::KeyA])];
    let mut cache = InputSequenceCache::new();
    let trie = cache.trie(&sequences);
    assert_eq!(trie.exact_match(vec![code(KeyCode::KeyA)]), Some(&1));
}

#[test]
fn trie_stands_until_the_reset() {
    let mut cache = InputSequenceCache::default();
    cache.trie(&sample());
    let other = vec![sequence(1, &[KeyCode::KeyZ])];
    assert_eq!(cache.trie(&other).exact_match(vec![code(KeyCode::KeyZ)]), None);
    assert_eq!(cache.sequences().len(), 3);
    cache.reset();
    assert_eq!(cache.sequences().len(), 0);
    assert_eq!(
        cache.trie(&other).exact_match(vec![code(KeyCode::KeyZ)]),
        Some(&0)
    );
    assert_eq!(cache.sequences().len(), 1);
}

#[test]
fn search_is_resumed_where_it_was_stored() {
    let sequences = sample();
    let mut cache = InputSequenceCache::new();
    let mut search = cache.recall(7, &sequences);
    assert_eq!(search.prefix_len(), 0);
    assert_eq!(search.query(&code(KeyCode::KeyC)), Some(Answer::Prefix));
    let position = Position::from(search);
    cache.store(7, position.0);
    let search = cache.recall(8, &sequences);
    assert_eq!(search.prefix_len(), 0);
    let mut search = cache.recall(7, &sequences);
    assert_eq!(search.prefix_len(), 1);
    assert_eq!(search.query(&code(KeyCode::KeyD)), Some(Answer::Match));
    assert_eq!(search.value(), Some(&2));
    cache.reset();
    let search = cache.recall(7, &sequences);
    assert_eq!(search.prefix_len(), 0);
}

#[test]
fn key_cache_has_one_search() {
    let sequences = sample();
    let mut cache = KeySequenceCache::default();
    assert_eq!(
        cache.trie(&sequences).exact_match(vec![code(KeyCode::KeyA)]),
        Some(&0)
    );
    let mut search = cache.recall(&sequences);
    assert_eq!(
        search.query(&code(KeyCode::KeyA)),
        Some(Answer::PrefixAndMatch)
    );
    let position = Position::from(search);
    cache.store(position.0);
    let search = cache.recall(&sequences);
    assert_eq!(search.prefix_len(), 1);
    cache.reset();
    assert_eq!(cache.recall(&sequences).prefix_len(), 0);
}

#[test]
fn button_cache_has_a_search_for_each_controller() {
    let sequences = vec![InputSequence::new(
        1,
        vec![
            Act::from(GamepadButton::North),
            Act::from(GamepadButton::East),
        ],
    )
    .build()
    .unwrap()];
    let north = Act::from(GamepadButton::North).to_code();
    let mut cache = ButtonSequenceCache::default();
    assert_eq!(cache.trie(&sequences).exact_match(vec![north]), None);
    let mut search = cache.recall(3, &sequences);
    assert_eq!(search.query(&north), Some(Answer::Prefix));
    let position = Position::from(search);
    cache.store(3, position.0);
    assert_eq!(cache.recall(4, &sequences).prefix_len(), 0);
    assert_eq!(cache.recall(3, &sequences).prefix_len(), 1);
    cache.reset();
    assert_eq!(cache.recall(3, &sequences).prefix_len(), 0);
}

#[test]
fn query_restarts_at_a_dead_end() {
    let sequences = sample();
    let mut cache = InputSequenceCache::new();
    let mut search = cache.recall(0, &sequences);
    assert_eq!(query_or_restart(&mut search, code(KeyCode::KeyC)), None);
    assert_eq!(search.prefix_len(), 1);
    // A does not follow C, but begins and ends a sequence.
    assert_eq!(query_or_restart(&mut search, code(KeyCode::KeyA)), Some(0));
    assert_eq!(search.prefix_len(), 1);
    assert_eq!(query_or_restart(&mut search, code(KeyCode::KeyB)), Some(1));
    assert_eq!(search.prefix_len(), 0);
    assert_eq!(query_or_restart(&mut search, code(KeyCode::KeyX)), None);
    assert_eq!(search.prefix_len(), 0);
}

#[test]
fn input_is_consumed_in_order() {
    let sequences = sample();
    let mut cache = InputSequenceCache::new();
    let mut search = cache.recall(0, &sequences);
    let input = act_codes(&keys(&[
        KeyCode::KeyA,
        KeyCode::KeyB,
        KeyCode::KeyX,
        KeyCode::KeyC,
        KeyCode::KeyD,
        KeyCode::KeyC,
    ]));
    assert_eq!(inc_consume_input(&mut search, &input), vec![0, 1, 2]);
    assert_eq!(search.prefix_len(), 1);
    assert_eq!(inc_consume_input(&mut search, &Vec::new()), vec![]);
    assert_eq!(search.prefix_len(), 1);
}

#[test]
fn queue_is_cut_from_the_front() {
    let mut times: VecDeque<FrameTime> = (0..5).map(at).collect();
    trim_front(&mut times, 7);
    assert_eq!(times.len(), 5);
    trim_front(&mut times, 2);
    assert_eq!(times.iter().map(|t| t.frame).collect::<Vec<u32>>(), vec![3, 4]);
    trim_front(&mut times, 0);
    assert!(times.is_empty());
}

#[test]
fn stamps_are_kept_for_the_inputs_that_still_count() {
    let sequences = vec![sequence(1, &[KeyCode::KeyA, KeyCode::KeyB, KeyCode::KeyC])];
    let mut cache = InputSequenceCache::new();
    let mut times = VecDeque::new();
    let fired = match_inputs(&mut cache, 0, &sequences, at(1), &keys(&[KeyCode::KeyA]), &mut times);
    assert_eq!(fired, vec![]);
    assert_eq!(times.iter().map(|t| t.frame).collect::<Vec<u32>>(), vec![1]);
    match_inputs(&mut cache, 0, &sequences, at(2), &keys(&[KeyCode::KeyB]), &mut times);
    assert_eq!(times.iter().map(|t| t.frame).collect::<Vec<u32>>(), vec![1, 2]);
    // A dead end that begins the sequence anew keeps its own stamp only.
    match_inputs(&mut cache, 0, &sequences, at(3), &keys(&[KeyCode::KeyA]), &mut times);
    assert_eq!(times.iter().map(|t| t.frame).collect::<Vec<u32>>(), vec![3]);
    // A dead end even from the root keeps none.
    match_inputs(&mut cache, 0, &sequences, at(4), &keys(&[KeyCode::KeyX]), &mut times);
    assert!(times.is_empty());
}

#[test]
fn stale_stamps_are_dropped_at_the_root() {
    let sequences = vec![InputSequence::new(1, keys(&[KeyCode::KeyA]))
        .time_limit(TimeLimit::Frames(1))
        .build()
        .unwrap()];
    let mut cache = InputSequenceCache::new();
    let mut times: VecDeque<FrameTime> = vec![at(0), at(1)].into_iter().collect();
    let fired = match_inputs(&mut cache, 0, &sequences, at(9), &keys(&[KeyCode::KeyA]), &mut times);
    assert_eq!(fired, vec![1]);
    assert!(times.is_empty());
}

#[test]
fn dead_end_within_a_frame_restarts_the_clock() {
    let sequences = vec![
        sequence(1, &[KeyCode::KeyA, KeyCode::KeyB]),
        InputSequence::new(2, keys(&[KeyCode::KeyC, KeyCode::KeyD]))
            .time_limit(TimeLimit::Frames(1))
            .build()
            .unwrap(),
    ];
    let mut cache = InputSequenceCache::new();
    let mut times = VecDeque::new();
    match_inputs(&mut cache, 0, &sequences, at(0), &keys(&[KeyCode::KeyA]), &mut times);
    // X leads nowhere and empties the queue, so C D is timed from this frame.
    let fired = match_inputs(
        &mut cache,
        0,
        &sequences,
        at(5),
        &keys(&[KeyCode::KeyX, KeyCode::KeyC, KeyCode::KeyD]),
        &mut times,
    );
    assert_eq!(fired, vec![2]);
    match_inputs(&mut cache, 0, &sequences, at(6), &keys(&[KeyCode::KeyA]), &mut times);
    // Without such a dead end the front of the queue stays where it was.
    let fired = match_inputs(
        &mut cache,
        0,
        &sequences,
        at(9),
        &keys(&[KeyCode::KeyB, KeyCode::KeyC, KeyCode::KeyD]),
        &mut times,
    );
    assert_eq!(fired, vec![1]);
}

#[test]
fn lateness_is_more_than_the_limit() {
    assert!(!is_late(&at(3), &at(1), &None));
    assert!(!is_late(&at(3), &at(1), &Some(TimeLimit::Frames(2))));
    assert!(is_late(&at(4), &at(1), &Some(TimeLimit::Frames(2))));
    assert!(!is_late(&at(1), &at(4), &Some(TimeLimit::Frames(0))));
    let twenty = TimeLimit::Duration(Duration::from_millis(20));
    assert!(!is_late(&at(3), &at(1), &Some(twenty)));
    assert!(is_late(&at(4), &at(1), &Some(twenty)));
    assert!(!is_late(&at(1), &at(4), &Some(TimeLimit::Duration(Duration::ZERO))));
    let span = at(7).sub(&at(2));
    assert_eq!(span.frame, 5);
    assert_eq!(span.time, Duration::from_millis(50));
    let none = at(2).sub(&at(7));
    assert_eq!(none.frame, 0);
    assert_eq!(none.time, Duration::ZERO);
    assert!(span.has_timedout(&TimeLimit::Frames(4)));
    assert!(!span.has_timedout(&TimeLimit::Frames(5)));
    assert!(span.has_timedout(&TimeLimit::Duration(Duration::from_nanos(49_999_999))));
    assert!(!span.has_timedout(&TimeLimit::Duration(Duration::from_millis(50))));
}

#[test]
fn keyboard_frame_takes_queued_chords_first() {
    let control_x = KeyChord(Modifiers(Modifiers::CONTROL), KeyCode::KeyX);
    let sequences = vec![InputSequence::new(
        1,
        vec![Act::from(control_x), Act::from(KeyCode::KeyS)],
    )
    .build()
    .unwrap()];
    let mut cache = KeySequenceCache::default();
    let mut times = VecDeque::new();
    let mut queue = KeyChordQueue::default();
    queue.0.push_back(control_x);
    let fired = key_sequence_matcher(
        &sequences,
        at(0),
        Modifiers::empty(),
        &vec![KeyCode::KeyS],
        &mut times,
        &mut cache,
        &mut queue,
    );
    assert_eq!(fired, vec![1]);
    assert!(queue.0.is_empty());
}

#[test]
fn keyboard_frame_makes_chords_with_the_modifiers_held() {
    let sequences = vec![InputSequence::new(
        1,
        vec![Act::KeyChord(Modifiers(Modifiers::SHIFT), KeyCode::KeyA)],
    )
    .build()
    .unwrap()];
    let mut cache = KeySequenceCache::default();
    let mut times = VecDeque::new();
    let mut queue = KeyChordQueue::default();
    let fired = key_sequence_matcher(
        &sequences,
        at(0),
        Modifiers::empty(),
        &vec![KeyCode::KeyA],
        &mut times,
        &mut cache,
        &mut queue,
    );
    assert_eq!(fired, vec![]);
    let fired = key_sequence_matcher(
        &sequences,
        at(1),
        Modifiers(Modifiers::SHIFT),
        &vec![KeyCode::ShiftLeft, KeyCode::KeyA],
        &mut times,
        &mut cache,
        &mut queue,
    );
    assert_eq!(fired, vec![1]);
}

#[test]
fn keyboard_frame_without_input_changes_nothing() {
    let sequences = vec![sequence(1, &[KeyCode::KeyA])];
    let mut cache = KeySequenceCache::default();
    let mut times: VecDeque<FrameTime> = vec![at(0)].into_iter().collect();
    let mut queue = KeyChordQueue::default();
    let fired = key_sequence_matcher(
        &sequences,
        at(1),
        Modifiers(Modifiers::CONTROL),
        &vec![KeyCode::ControlLeft],
        &mut times,
        &mut cache,
        &mut queue,
    );
    assert_eq!(fired, vec![]);
    assert_eq!(times.len(), 1);
    assert_eq!(cache.0.sequences().len(), 0);
}

#[test]
fn controllers_are_matched_each_for_itself() {
    let sequences = vec![InputSequence::new(
        5,
        vec![
            Act::from(GamepadButton::North),
            Act::from(GamepadButton::South),
        ],
    )
    .build()
    .unwrap()];
    let mut cache = ButtonSequenceCache::default();
    let mut times = HashMap::new();
    let runs = button_sequence_matcher(
        &sequences,
        at(0),
        &mut times,
        &mut cache,
        &vec![
            (1, vec![GamepadButton::North]),
            (2, vec![GamepadButton::North, GamepadButton::South]),
            (3, vec![]),
        ],
    );
    assert_eq!(runs, vec![(5, 2)]);
    assert_eq!(times.get(&1).map(|q| q.len()), Some(1));
    assert_eq!(times.get(&2).map(|q| q.len()), Some(0));
    assert!(times.get(&3).is_none());
    let runs = button_sequence_matcher(
        &sequences,
        at(1),
        &mut times,
        &mut cache,
        &vec![(2, vec![GamepadButton::South]), (1, vec![GamepadButton::South])],
    );
    assert_eq!(runs, vec![(5, 1)]);
}

#[test]
fn controllers_without_buttons_leave_the_trie_unbuilt() {
    let sequences = vec![sequence(1, &[KeyCode::KeyA])];
    let mut cache = ButtonSequenceCache::default();
    let mut times = HashMap::new();
    let runs = button_sequence_matcher(&sequences, at(0), &mut times, &mut cache, &vec![(1, vec![])]);
    assert_eq!(runs, vec![]);
    assert_eq!(cache.0.sequences().len(), 0);
}

#[test]
fn additions_and_removals_reset_the_caches() {
    let sequences = vec![sequence(1, &[KeyCode::KeyA, KeyCode::KeyB])];
    let mut cache = KeySequenceCache::default();
    let mut times = VecDeque::new();
    let mut queue = KeyChordQueue::default();
    let mut press = |cache: &mut KeySequenceCache, frame: u32, key: KeyCode| {
        key_sequence_matcher(
            &sequences,
            at(frame),
            Modifiers::empty(),
            &vec![key],
            &mut times,
            cache,
            &mut queue,
        )
    };
    press(&mut cache, 0, KeyCode::KeyA);
    detect_key_additions(0, &mut cache);
    detect_key_removals(&mut cache, 0);
    assert_eq!(press(&mut cache, 1, KeyCode::KeyB), vec![1]);
    press(&mut cache, 2, KeyCode::KeyA);
    detect_key_additions(1, &mut cache);
    assert_eq!(press(&mut cache, 3, KeyCode::KeyB), vec![]);
    press(&mut cache, 4, KeyCode::KeyA);
    detect_key_removals(&mut cache, 2);
    assert_eq!(press(&mut cache, 5, KeyCode::KeyB), vec![]);

    let mut cache = ButtonSequenceCache::default();
    cache.trie(&sequences);
    detect_button_additions(0, &mut cache);
    detect_button_removals(&mut cache, 0);
    assert_eq!(cache.0.sequences().len(), 1);
    detect_button_additions(3, &mut cache);
    assert_eq!(cache.0.sequences().len(), 0);
    cache.trie(&sequences);
    detect_button_removals(&mut cache, 1);
    assert_eq!(cache.0.sequences().len(), 0);
}

#[test]
fn plugin_adds_what_was_asked_for() {
    let key = |schedule: u64, set: Option<u64>| Chain {
        schedule,
        set,
        matcher: Matcher::Key,
    };
    let button = |schedule: u64, set: Option<u64>| Chain {
        schedule,
        set,
        matcher: Matcher::Button,
    };
    let plugin = InputSequencePlugin::default();
    assert_eq!(plugin.build(true), vec![key(UPDATE, None)]);
    assert_eq!(plugin.build(false), vec![]);
    let plugin = InputSequencePlugin::default().match_key(true).match_button(true);
    assert_eq!(
        plugin.build(false),
        vec![key(UPDATE, None), button(UPDATE, None)]
    );
    let plugin = InputSequencePlugin::default().match_key(false);
    assert_eq!(plugin.build(true), vec![]);
    let plugin = InputSequencePlugin::empty().match_button(true);
    assert_eq!(plugin.build(true), vec![]);
    let plugin = InputSequencePlugin::empty()
        .run_in(4)
        .run_in_set(5, 6)
        .match_button(true);
    assert_eq!(
        plugin.build(true),
        vec![
            key(4, None),
            key(5, Some(6)),
            button(4, None),
            button(5, Some(6))
        ]
    );
    assert_eq!(
        plugin.build(false),
        vec![button(4, None), button(5, Some(6))]
    );
}
