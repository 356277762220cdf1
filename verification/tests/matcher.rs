use input_sequence::input_sequence::{EmptySequence, InputSequence};
use input_sequence::{Act, FrameTime, GamepadButton, KeyCode, Modifiers, SequenceMatcher, TimeLimit};
use std::time::Duration;

const KEYBOARD: u64 = 0;

fn at(frame: u32) -> FrameTime {
    FrameTime {
        frame,
        time: Duration::from_millis(10 * frame as u64),
    }
}

fn keys(keys: &[KeyCode]) -> Vec<Act> {
    keys.iter().map(|key| Act::from(*key)).collect()
}

fn sequence(system: u64, acts: &[KeyCode]) -> InputSequence {
    InputSequence::new(system, keys(acts)).build().unwrap()
}

fn limited(system: u64, acts: &[KeyCode], limit: TimeLimit) -> InputSequence {
    InputSequence::new(system, keys(acts))
        .time_limit(limit)
        .build()
        .unwrap()
}

#[test]
fn exact_input_fires_on_the_last_act_only() {
    let mut matcher = SequenceMatcher::new();
    matcher.register(sequence(7, &[KeyCode::KeyA, KeyCode::KeyB, KeyCode::KeyC]));
    assert_eq!(matcher.step(KEYBOARD, at(0), &keys(&[KeyCode::KeyA])), vec![]);
    assert_eq!(matcher.step(KEYBOARD, at(1), &keys(&[KeyCode::KeyB])), vec![]);
    assert_eq!(matcher.step(KEYBOARD, at(2), &keys(&[KeyCode::KeyC])), vec![7]);
}

#[test]
fn exact_input_fires_within_one_frame() {
    let mut matcher = SequenceMatcher::new();
    matcher.register(sequence(7, &[KeyCode::KeyA, KeyCode::KeyB, KeyCode::KeyC]));
    assert_eq!(
        matcher.step(
            KEYBOARD,
            at(0),
            &keys(&[KeyCode::KeyA, KeyCode::KeyB, KeyCode::KeyC])
        ),
        vec![7]
    );
}

#[test]
fn exact_input_fires_over_uneven_frames() {
    let mut matcher = SequenceMatcher::new();
    matcher.register(sequence(7, &[KeyCode::KeyA, KeyCode::KeyB, KeyCode::KeyC]));
    assert_eq!(
        matcher.step(KEYBOARD, at(0), &keys(&[KeyCode::KeyA, KeyCode::KeyB])),
        vec![]
    );
    assert_eq!(matcher.step(KEYBOARD, at(1), &keys(&[])), vec![]);
    assert_eq!(matcher.step(KEYBOARD, at(2), &keys(&[KeyCode::KeyC])), vec![7]);
}

#[test]
fn shared_prefix_fires_the_first() {
    let mut matcher = SequenceMatcher::new();
    matcher.register(sequence(1, &[KeyCode::KeyA, KeyCode::KeyB]));
    matcher.register(sequence(2, &[KeyCode::KeyA, KeyCode::KeyC]));
    assert_eq!(matcher.step(KEYBOARD, at(0), &keys(&[KeyCode::KeyA])), vec![]);
    assert_eq!(matcher.step(KEYBOARD, at(1), &keys(&[KeyCode::KeyB])), vec![1]);
}

#[test]
fn shared_prefix_fires_the_second() {
    let mut matcher = SequenceMatcher::new();
    matcher.register(sequence(1, &[KeyCode::KeyA, KeyCode::KeyB]));
    matcher.register(sequence(2, &[KeyCode::KeyA, KeyCode::KeyC]));
    assert_eq!(matcher.step(KEYBOARD, at(0), &keys(&[KeyCode::KeyA])), vec![]);
    assert_eq!(matcher.step(KEYBOARD, at(1), &keys(&[KeyCode::KeyC])), vec![2]);
}

#[test]
fn shared_prefix_fires_neither_after_a_wrong_key() {
    let mut matcher = SequenceMatcher::new();
    matcher.register(sequence(1, &[KeyCode::KeyA, KeyCode::KeyB]));
    matcher.register(sequence(2, &[KeyCode::KeyA, KeyCode::KeyC]));
    assert_eq!(matcher.step(KEYBOARD, at(0), &keys(&[KeyCode::KeyA])), vec![]);
    assert_eq!(matcher.step(KEYBOARD, at(1), &keys(&[KeyCode::KeyD])), vec![]);
    assert_eq!(matcher.step(KEYBOARD, at(2), &keys(&[KeyCode::KeyB])), vec![]);
}

#[test]
fn dead_end_retries_from_the_root() {
    let mut matcher = SequenceMatcher::new();
    matcher.register(sequence(1, &[KeyCode::KeyA]));
    assert_eq!(matcher.step(KEYBOARD, at(0), &keys(&[KeyCode::KeyX])), vec![]);
    assert_eq!(matcher.step(KEYBOARD, at(1), &keys(&[KeyCode::KeyA])), vec![1]);
}

#[test]
fn dead_end_begins_a_new_sequence_with_the_same_input() {
    let mut matcher = SequenceMatcher::new();
    matcher.register(sequence(1, &[KeyCode::KeyA, KeyCode::KeyB]));
    matcher.register(sequence(2, &[KeyCode::KeyC]));
    assert_eq!(matcher.step(KEYBOARD, at(0), &keys(&[KeyCode::KeyA])), vec![]);
    // C does not follow A, but it is a sequence of its own.
    assert_eq!(matcher.step(KEYBOARD, at(1), &keys(&[KeyCode::KeyC])), vec![2]);
    // The A before is forgotten.
    assert_eq!(matcher.step(KEYBOARD, at(2), &keys(&[KeyCode::KeyB])), vec![]);
}

#[test]
fn overlap_fires_both_in_turn() {
    let mut matcher = SequenceMatcher::new();
    matcher.register(sequence(1, &[KeyCode::KeyA]));
    matcher.register(sequence(2, &[KeyCode::KeyA, KeyCode::KeyB]));
    assert_eq!(matcher.step(KEYBOARD, at(0), &keys(&[KeyCode::KeyA])), vec![1]);
    assert_eq!(matcher.step(KEYBOARD, at(1), &keys(&[KeyCode::KeyB])), vec![2]);
}

#[test]
fn frame_limit_exceeded_does_not_fire() {
    let mut matcher = SequenceMatcher::new();
    matcher.register(limited(
        1,
        &[KeyCode::KeyA, KeyCode::KeyB],
        TimeLimit::Frames(1),
    ));
    assert_eq!(matcher.step(KEYBOARD, at(0), &keys(&[KeyCode::KeyA])), vec![]);
    assert_eq!(matcher.step(KEYBOARD, at(2), &keys(&[KeyCode::KeyB])), vec![]);
    // The search went on as if the sequence had fired: it is at the root.
    assert_eq!(matcher.step(KEYBOARD, at(3), &keys(&[KeyCode::KeyB])), vec![]);
}

#[test]
fn frame_limit_kept_fires() {
    let mut matcher = SequenceMatcher::new();
    matcher.register(limited(
        1,
        &[KeyCode::KeyA, KeyCode::KeyB],
        TimeLimit::Frames(1),
    ));
    assert_eq!(matcher.step(KEYBOARD, at(0), &keys(&[KeyCode::KeyA])), vec![]);
    assert_eq!(matcher.step(KEYBOARD, at(1), &keys(&[KeyCode::KeyB])), vec![1]);
}

#[test]
fn duration_limit_counts_from_the_first_act() {
    let limit = TimeLimit::from(Duration::from_millis(25));
    let mut matcher = SequenceMatcher::new();
    matcher.register(limited(1, &[KeyCode::KeyA, KeyCode::KeyB], limit));
    assert_eq!(matcher.step(KEYBOARD, at(0), &keys(&[KeyCode::KeyA])), vec![]);
    // 30 ms later: too late.
    assert_eq!(matcher.step(KEYBOARD, at(3), &keys(&[KeyCode::KeyB])), vec![]);
    assert_eq!(matcher.step(KEYBOARD, at(4), &keys(&[KeyCode::KeyA])), vec![]);
    // 20 ms later: in time.
    assert_eq!(matcher.step(KEYBOARD, at(6), &keys(&[KeyCode::KeyB])), vec![1]);
}

#[test]
fn duration_limit_met_exactly_fires() {
    let limit = TimeLimit::Duration(Duration::from_millis(20));
    let mut matcher = SequenceMatcher::new();
    matcher.register(limited(1, &[KeyCode::KeyA, KeyCode::KeyB], limit));
    assert_eq!(matcher.step(KEYBOARD, at(1), &keys(&[KeyCode::KeyA])), vec![]);
    assert_eq!(matcher.step(KEYBOARD, at(3), &keys(&[KeyCode::KeyB])), vec![1]);
}

#[test]
fn clock_that_runs_backwards_is_no_timeout() {
    let mut matcher = SequenceMatcher::new();
    matcher.register(limited(
        1,
        &[KeyCode::KeyA, KeyCode::KeyB],
        TimeLimit::Frames(0),
    ));
    assert_eq!(matcher.step(KEYBOARD, at(5), &keys(&[KeyCode::KeyA])), vec![]);
    assert_eq!(matcher.step(KEYBOARD, at(2), &keys(&[KeyCode::KeyB])), vec![1]);
}

#[test]
fn one_path_fires_every_sequence_in_order_of_registration() {
    let mut matcher = SequenceMatcher::new();
    matcher.register(sequence(5, &[KeyCode::KeyA, KeyCode::KeyB]));
    matcher.register(sequence(3, &[KeyCode::KeyA]));
    matcher.register(sequence(9, &[KeyCode::KeyA, KeyCode::KeyB]));
    assert_eq!(matcher.step(KEYBOARD, at(0), &keys(&[KeyCode::KeyA])), vec![3]);
    assert_eq!(
        matcher.step(KEYBOARD, at(1), &keys(&[KeyCode::KeyB])),
        vec![5, 9]
    );
}

#[test]
fn time_limit_withholds_one_sequence_of_a_path_only() {
    let mut matcher = SequenceMatcher::new();
    matcher.register(limited(
        1,
        &[KeyCode::KeyA, KeyCode::KeyB],
        TimeLimit::Frames(1),
    ));
    matcher.register(sequence(2, &[KeyCode::KeyA, KeyCode::KeyB]));
    assert_eq!(matcher.step(KEYBOARD, at(0), &keys(&[KeyCode::KeyA])), vec![]);
    assert_eq!(matcher.step(KEYBOARD, at(5), &keys(&[KeyCode::KeyB])), vec![2]);
}

#[test]
fn registration_starts_every_context_afresh() {
    let mut matcher = SequenceMatcher::new();
    matcher.register(sequence(1, &[KeyCode::KeyA, KeyCode::KeyB]));
    assert_eq!(matcher.step(KEYBOARD, at(0), &keys(&[KeyCode::KeyA])), vec![]);
    matcher.register(sequence(2, &[KeyCode::KeyC]));
    // The A from before the registration does not count.
    assert_eq!(matcher.step(KEYBOARD, at(1), &keys(&[KeyCode::KeyB])), vec![]);
    assert_eq!(matcher.step(KEYBOARD, at(2), &keys(&[KeyCode::KeyA])), vec![]);
    assert_eq!(matcher.step(KEYBOARD, at(3), &keys(&[KeyCode::KeyB])), vec![1]);
    assert_eq!(matcher.step(KEYBOARD, at(4), &keys(&[KeyCode::KeyC])), vec![2]);
}

#[test]
fn registration_forgets_the_stamps_too() {
    let mut matcher = SequenceMatcher::new();
    matcher.register(sequence(1, &[KeyCode::KeyA, KeyCode::KeyB]));
    assert_eq!(matcher.step(KEYBOARD, at(0), &keys(&[KeyCode::KeyA])), vec![]);
    matcher.register(limited(2, &[KeyCode::KeyC], TimeLimit::Frames(1)));
    // Timed from frame 0 the limit would be exceeded; timed from now it is kept.
    assert_eq!(matcher.step(KEYBOARD, at(9), &keys(&[KeyCode::KeyC])), vec![2]);
}

#[test]
fn unregistered_sequence_no_longer_fires() {
    let mut matcher = SequenceMatcher::new();
    let first = matcher.register(sequence(1, &[KeyCode::KeyA]));
    let second = matcher.register(sequence(2, &[KeyCode::KeyA]));
    assert!(first != second);
    assert_eq!(
        matcher.step(KEYBOARD, at(0), &keys(&[KeyCode::KeyA])),
        vec![1, 2]
    );
    assert!(matcher.unregister(first));
    assert_eq!(matcher.step(KEYBOARD, at(1), &keys(&[KeyCode::KeyA])), vec![2]);
    assert!(!matcher.unregister(first));
    assert!(matcher.unregister(second));
    assert_eq!(matcher.step(KEYBOARD, at(2), &keys(&[KeyCode::KeyA])), vec![]);
}

#[test]
fn no_sequence_no_match() {
    let mut matcher = SequenceMatcher::default();
    assert!(matcher.has_room());
    assert_eq!(
        matcher.step(KEYBOARD, at(0), &keys(&[KeyCode::KeyA, KeyCode::KeyB])),
        vec![]
    );
}

#[test]
fn contexts_do_not_share_progress() {
    let north_east = vec![
        Act::from(GamepadButton::North),
        Act::from(GamepadButton::East),
    ];
    let mut matcher = SequenceMatcher::new();
    matcher.register(InputSequence::new(4, north_east).build().unwrap());
    let north = vec![Act::PadButton(GamepadButton::North)];
    let east = vec![Act::PadButton(GamepadButton::East)];
    assert_eq!(matcher.step(11, at(0), &north), vec![]);
    assert_eq!(matcher.step(12, at(1), &east), vec![]);
    assert_eq!(matcher.step(11, at(2), &east), vec![4]);
}

#[test]
fn chords_differ_by_their_modifiers() {
    let control_a = Act::KeyChord(Modifiers(Modifiers::CONTROL), KeyCode::KeyA);
    let plain_a = Act::KeyChord(Modifiers::empty(), KeyCode::KeyA);
    let mut matcher = SequenceMatcher::new();
    matcher.register(InputSequence::new(1, vec![control_a]).build().unwrap());
    assert_eq!(matcher.step(KEYBOARD, at(0), &vec![plain_a]), vec![]);
    assert_eq!(matcher.step(KEYBOARD, at(1), &vec![control_a]), vec![1]);
}

#[test]
fn sequence_without_acts_is_refused() {
    let built = InputSequence::new(1, Vec::new()).build();
    assert_eq!(built.err(), Some(EmptySequence));
}

#[test]
fn sequence_keeps_what_it_was_built_with() {
    let built = InputSequence::new(3, keys(&[KeyCode::KeyA, KeyCode::KeyB]))
        .time_limit(TimeLimit::Frames(4))
        .build()
        .unwrap();
    assert_eq!(built.system_id(), 3);
    assert_eq!(built.acts(), &keys(&[KeyCode::KeyA, KeyCode::KeyB]));
    assert!(matches!(built.time_limit(), Some(TimeLimit::Frames(4))));
    let copy = built.clone();
    assert_eq!(copy.system_id(), 3);
    assert_eq!(copy.acts(), built.acts());
}
