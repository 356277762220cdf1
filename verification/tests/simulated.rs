use input_sequence::cache::button::ButtonSequenceCache;
use input_sequence::cache::key::KeySequenceCache;
use input_sequence::input_sequence::{InputSequence, InputSequenceBuilder};
use input_sequence::plugin::{
    button_sequence_matcher, detect_button_additions, detect_button_removals,
    detect_key_additions, detect_key_removals, key_sequence_matcher,
};
use input_sequence::{
    key, Act, FrameTime, GamepadButton, KeyChord, KeyChordQueue, KeyCode, Modifiers, TimeLimit,
};
use std::collections::{HashMap, VecDeque};
use std::time::Duration;

#[test]
fn keychord_display() {
    let keychord = KeyChord::from(key("Ctrl - A").unwrap());
    assert_eq!(keychord.to_string(), "Ctrl-A");
    let keychord = KeyChord::from(key("Ctrl - 1").unwrap());
    assert_eq!(keychord.to_string(), "Ctrl-1");
    let keychord = KeyChord::from(key("1").unwrap());
    assert_eq!(keychord.to_string(), "1");
}

/// What a system does when it is run.
#[derive(Clone, Copy)]
enum Action {
    SendEvent,
    Store(u8),
}

/// A host for the matchers: it keeps the sequences, the state of the keys and
/// buttons, and what the systems have done.
struct App {
    actions: Vec<Action>,
    key_sequences: Vec<InputSequence>,
    button_sequences: Vec<InputSequence>,
    keys_added: usize,
    buttons_added: usize,
    key_cache: KeySequenceCache,
    button_cache: ButtonSequenceCache,
    key_times: VecDeque<FrameTime>,
    pad_times: HashMap<u64, VecDeque<FrameTime>>,
    queue: KeyChordQueue,
    pressed: Vec<KeyCode>,
    just_pressed: Vec<KeyCode>,
    pads: Vec<u64>,
    buttons: Vec<(u64, GamepadButton)>,
    frame: u32,
    event_sent: Vec<u8>,
    r: u8,
}

fn new_app() -> App {
    App {
        actions: Vec::new(),
        key_sequences: Vec::new(),
        button_sequences: Vec::new(),
        keys_added: 0,
        buttons_added: 0,
        key_cache: KeySequenceCache::default(),
        button_cache: ButtonSequenceCache::default(),
        key_times: VecDeque::new(),
        pad_times: HashMap::new(),
        queue: KeyChordQueue::default(),
        pressed: Vec::new(),
        just_pressed: Vec::new(),
        pads: Vec::new(),
        buttons: Vec::new(),
        frame: 0,
        event_sent: Vec::new(),
        r: 0,
    }
}

fn register(app: &mut App, action: Action) -> u64 {
    app.actions.push(action);
    (app.actions.len() - 1) as u64
}

fn add_keys(app: &mut App, action: Action, keys: &[KeyCode]) {
    let system = register(app, action);
    let acts: Vec<Act> = keys.iter().map(|key| Act::from(*key)).collect();
    add_key_sequence(app, InputSequence::new(system, acts));
}

fn add_key_sequence(app: &mut App, builder: InputSequenceBuilder) {
    app.key_sequences.push(builder.build().unwrap());
    app.keys_added += 1;
}

fn add_buttons(app: &mut App, action: Action, buttons: &[GamepadButton]) {
    let system = register(app, action);
    let acts: Vec<Act> = buttons.iter().map(|button| Act::from(*button)).collect();
    app.button_sequences
        .push(InputSequence::new(system, acts).build().unwrap());
    app.buttons_added += 1;
}

fn connect_gamepad(app: &mut App) -> u64 {
    let id = 100 + app.pads.len() as u64;
    app.pads.push(id);
    id
}

fn press_key(app: &mut App, key: KeyCode) {
    if !app.pressed.contains(&key) {
        app.pressed.push(key);
        app.just_pressed.push(key);
    }
}

fn clear_just_pressed(app: &mut App, key: KeyCode) {
    app.just_pressed.retain(|k| *k != key);
}

fn release(app: &mut App, key: KeyCode) {
    app.pressed.retain(|k| *k != key);
}

fn press_pad_button(app: &mut App, button: GamepadButton, id: u64) {
    app.buttons.push((id, button));
}

fn clear_just_pressed_pad_button(app: &mut App, button: GamepadButton, id: u64) {
    app.buttons.retain(|b| *b != (id, button));
}

fn held(app: &App) -> Modifiers {
    Modifiers::from_keys(&app.pressed)
}

fn update(app: &mut App) {
    app.frame += 1;
    let now = FrameTime {
        frame: app.frame,
        time: Duration::from_millis(16 * app.frame as u64),
    };
    detect_key_removals(&mut app.key_cache, 0);
    detect_key_additions(app.keys_added, &mut app.key_cache);
    app.keys_added = 0;
    let mods = held(app);
    let mut systems = key_sequence_matcher(
        &app.key_sequences,
        now,
        mods,
        &app.just_pressed,
        &mut app.key_times,
        &mut app.key_cache,
        &mut app.queue,
    );
    detect_button_removals(&mut app.button_cache, 0);
    detect_button_additions(app.buttons_added, &mut app.button_cache);
    app.buttons_added = 0;
    let gamepads: Vec<(u64, Vec<GamepadButton>)> = app
        .pads
        .iter()
        .map(|id| {
            (
                *id,
                app.buttons
                    .iter()
                    .filter(|b| b.0 == *id)
                    .map(|b| b.1)
                    .collect(),
            )
        })
        .collect();
    app.buttons.clear();
    let runs = button_sequence_matcher(
        &app.button_sequences,
        now,
        &mut app.pad_times,
        &mut app.button_cache,
        &gamepads,
    );
    systems.extend(runs.iter().map(|run| run.0));
    let mut events: u8 = 0;
    for system in systems {
        match app.actions[system as usize] {
            Action::SendEvent => events += 1,
            Action::Store(x) => app.r = x,
        }
    }
    if app.event_sent.len() == 1 {
        app.event_sent[0] += events;
    } else {
        for _ in 0..events {
            app.event_sent.push(1);
        }
    }
}

#[test]
fn one_key() {
    let mut app = new_app();

    let system = register(&mut app, Action::SendEvent);
    add_key_sequence(
        &mut app,
        InputSequence::new(
            system,
            vec![Act::KeyChord(Modifiers::empty(), KeyCode::KeyA)],
        ),
    );
    press_key(&mut app, KeyCode::KeyA);
    update(&mut app);
    assert!(app.event_sent.iter().next().is_some());
}

#[test]
fn two_components_one_event() {
    let mut app = new_app();

    add_keys(&mut app, Action::SendEvent, &[KeyCode::KeyA]);
    add_keys(&mut app, Action::SendEvent, &[KeyCode::KeyA]);
    press_key(&mut app, KeyCode::KeyA);
    update(&mut app);
    // Two sequences with one path are both completed by the one press.
    assert_eq!(app.event_sent.iter().count(), 2);
}

#[test]
fn two_presses_two_events() {
    let mut app = new_app();

    add_keys(&mut app, Action::SendEvent, &[KeyCode::KeyA]);
    add_keys(&mut app, Action::SendEvent, &[KeyCode::KeyB]);
    press_key(&mut app, KeyCode::KeyA);
    press_key(&mut app, KeyCode::KeyB);
    update(&mut app);
    assert_eq!(app.event_sent.iter().count(), 2);
}

#[test]
fn two_keycodes_match_first() {
    let mut app = new_app();

    add_keys(&mut app, Action::SendEvent, &[KeyCode::KeyA, KeyCode::KeyB]);
    add_keys(&mut app, Action::SendEvent, &[KeyCode::KeyA, KeyCode::KeyC]);

    press_key(&mut app, KeyCode::KeyA);
    update(&mut app);
    assert!(app.event_sent.iter().next().is_none());

    clear_just_pressed(&mut app, KeyCode::KeyA);
    press_key(&mut app, KeyCode::KeyB);
    update(&mut app);
    assert!(app.event_sent.iter().next().is_some());
}

#[test]
fn match_short_seq() {
    let mut app = new_app();

    add_keys(&mut app, Action::SendEvent, &[KeyCode::KeyA, KeyCode::KeyB]);
    add_keys(
        &mut app,
        Action::SendEvent,
        &[KeyCode::KeyA, KeyCode::KeyB, KeyCode::KeyC],
    );

    press_key(&mut app, KeyCode::KeyA);
    update(&mut app);
    assert!(app.event_sent.iter().next().is_none());

    clear_just_pressed(&mut app, KeyCode::KeyA);
    press_key(&mut app, KeyCode::KeyB);
    update(&mut app);
    assert_eq!(app.event_sent.iter().next().map(|x| *x).unwrap(), 1);

    clear_just_pressed(&mut app, KeyCode::KeyB);
    press_key(&mut app, KeyCode::KeyC);
    update(&mut app);
    assert_eq!(app.event_sent.iter().next().map(|x| *x).unwrap(), 2);

    clear_just_pressed(&mut app, KeyCode::KeyC);
    press_key(&mut app, KeyCode::KeyD);
    update(&mut app);
    assert_eq!(app.event_sent.iter().next().map(|x| *x).unwrap(), 2);
}

#[test]
fn two_keycodes_match_second() {
    let mut app = new_app();

    add_keys(&mut app, Action::SendEvent, &[KeyCode::KeyA, KeyCode::KeyB]);
    add_keys(&mut app, Action::SendEvent, &[KeyCode::KeyA, KeyCode::KeyC]);

    press_key(&mut app, KeyCode::KeyA);
    update(&mut app);
    assert!(app.event_sent.iter().next().is_none());

    clear_just_pressed(&mut app, KeyCode::KeyA);
    press_key(&mut app, KeyCode::KeyC);
    update(&mut app);
    assert!(app.event_sent.iter().next().is_some());
}

#[test]
fn match_a_and_c() {
    let mut app = new_app();

    add_keys(&mut app, Action::Store(1), &[KeyCode::KeyA]);
    add_keys(&mut app, Action::Store(2), &[KeyCode::KeyA, KeyCode::KeyB]);
    add_keys(&mut app, Action::Store(3), &[KeyCode::KeyC]);
    assert_eq!(app.r, 0);
    press_key(&mut app, KeyCode::KeyA);
    update(&mut app);
    assert_eq!(app.r, 1);
    clear_just_pressed(&mut app, KeyCode::KeyA);
    press_key(&mut app, KeyCode::KeyC);
    update(&mut app);
    assert_eq!(app.r, 3);
}

#[test]
fn two_any_patterns() {
    let mut app = new_app();

    add_keys(&mut app, Action::SendEvent, &[KeyCode::KeyA, KeyCode::KeyB]);
    add_keys(&mut app, Action::SendEvent, &[KeyCode::KeyA, KeyCode::KeyC]);
    add_keys(&mut app, Action::SendEvent, &[KeyCode::KeyA, KeyCode::KeyD]);
    press_key(&mut app, KeyCode::KeyA);
    update(&mut app);
    assert!(app.event_sent.iter().next().is_none());

    clear_just_pressed(&mut app, KeyCode::KeyA);
    press_key(&mut app, KeyCode::KeyB);
    update(&mut app);
    assert!(app.event_sent.iter().next().is_some());
}

#[test]
fn two_any_patterns_match_2nd() {
    let mut app = new_app();

    add_keys(&mut app, Action::SendEvent, &[KeyCode::KeyA, KeyCode::KeyB]);
    add_keys(&mut app, Action::SendEvent, &[KeyCode::KeyA, KeyCode::KeyC]);
    add_keys(&mut app, Action::SendEvent, &[KeyCode::KeyA, KeyCode::KeyD]);
    press_key(&mut app, KeyCode::KeyA);
    update(&mut app);
    assert!(app.event_sent.iter().next().is_none());

    clear_just_pressed(&mut app, KeyCode::KeyA);
    press_key(&mut app, KeyCode::KeyD);
    update(&mut app);
    assert!(app.event_sent.iter().next().is_some());
}

#[test]
fn two_keycodes() {
    let mut app = new_app();

    add_keys(&mut app, Action::SendEvent, &[KeyCode::KeyA, KeyCode::KeyB]);

    press_key(&mut app, KeyCode::KeyA);
    update(&mut app);
    assert!(app.event_sent.iter().next().is_none());

    clear_just_pressed(&mut app, KeyCode::KeyA);
    press_key(&mut app, KeyCode::KeyB);
    update(&mut app);
    assert!(app.event_sent.iter().next().is_some());
}

#[test]
fn delete_sequences_if_pressed_incorrect_key() {
    let mut app = new_app();

    add_keys(
        &mut app,
        Action::SendEvent,
        &[KeyCode::KeyA, KeyCode::KeyB, KeyCode::KeyC],
    );

    press_key(&mut app, KeyCode::KeyA);
    update(&mut app);
    assert!(app.event_sent.iter().next().is_none());

    clear_just_pressed(&mut app, KeyCode::KeyA);
    press_key(&mut app, KeyCode::KeyB);
    update(&mut app);
    assert!(app.event_sent.iter().next().is_none());

    clear_just_pressed(&mut app, KeyCode::KeyB);
    press_key(&mut app, KeyCode::KeyD);
    update(&mut app);
    assert!(app.event_sent.iter().next().is_none());
}

#[test]
fn game_pad_button() {
    let mut app = new_app();

    let id = connect_gamepad(&mut app);

    add_buttons(
        &mut app,
        Action::SendEvent,
        &[
            GamepadButton::North,
            GamepadButton::East,
            GamepadButton::South,
        ],
    );
    update(&mut app);

    press_pad_button(&mut app, GamepadButton::North, id);
    update(&mut app);
    assert!(app.event_sent.iter().next().is_none());

    clear_just_pressed_pad_button(&mut app, GamepadButton::North, id);
    press_pad_button(&mut app, GamepadButton::East, id);
    update(&mut app);
    assert!(app.event_sent.iter().next().is_none());

    clear_just_pressed_pad_button(&mut app, GamepadButton::East, id);
    press_pad_button(&mut app, GamepadButton::South, id);
    update(&mut app);
    assert!(app.event_sent.iter().next().is_some());
}

#[test]
fn multiple_inputs() {
    let mut app = new_app();
    let id = connect_gamepad(&mut app);
    add_keys(
        &mut app,
        Action::SendEvent,
        &[KeyCode::KeyA, KeyCode::KeyB, KeyCode::KeyX],
    );

    add_buttons(
        &mut app,
        Action::SendEvent,
        &[GamepadButton::North, GamepadButton::C],
    );
    update(&mut app);

    press_key(&mut app, KeyCode::KeyA);
    update(&mut app);
    assert!(app.event_sent.iter().next().is_none());

    clear_just_pressed(&mut app, KeyCode::KeyA);
    press_key(&mut app, KeyCode::KeyB);
    update(&mut app);
    assert!(app.event_sent.iter().next().is_none());

    clear_just_pressed(&mut app, KeyCode::KeyB);
    press_pad_button(&mut app, GamepadButton::North, id);
    update(&mut app);
    assert!(app.event_sent.iter().next().is_none());

    clear_just_pressed_pad_button(&mut app, GamepadButton::North, id);
    press_pad_button(&mut app, GamepadButton::C, id);
    update(&mut app);
    assert!(app.event_sent.iter().next().is_some());
}

#[test]
fn timeout_1frame() {
    let mut app = new_app();

    let system = register(&mut app, Action::SendEvent);
    add_key_sequence(
        &mut app,
        InputSequence::new(
            system,
            vec![Act::from(KeyCode::KeyA), Act::from(KeyCode::KeyB)],
        )
        .time_limit(TimeLimit::Frames(1)),
    );

    press_key(&mut app, KeyCode::KeyA);
    update(&mut app);
    assert!(app.event_sent.iter().next().is_none());

    clear_just_pressed(&mut app, KeyCode::KeyA);
    update(&mut app);

    press_key(&mut app, KeyCode::KeyB);
    update(&mut app);
    assert!(app.event_sent.iter().next().is_none());
}

#[test]
fn test_modifier() {
    let mut app = new_app();

    add_keys(&mut app, Action::SendEvent, &[KeyCode::KeyA, KeyCode::KeyB]);

    press_key(&mut app, KeyCode::KeyA);
    update(&mut app);
    assert!(app.event_sent.iter().next().is_none());

    clear_just_pressed(&mut app, KeyCode::KeyA);
    update(&mut app);

    press_key(&mut app, KeyCode::ControlLeft);
    update(&mut app);
    assert!(app.event_sent.iter().next().is_none());
    release(&mut app, KeyCode::ControlLeft);
    update(&mut app);

    press_key(&mut app, KeyCode::KeyB);
    update(&mut app);
    assert!(app.event_sent.iter().next().is_some());
}

#[test]
fn no_timeout_1frame() {
    let mut app = new_app();

    let system = register(&mut app, Action::SendEvent);
    add_key_sequence(
        &mut app,
        InputSequence::new(
            system,
            vec![Act::from(KeyCode::KeyA), Act::from(KeyCode::KeyB)],
        )
        .time_limit(TimeLimit::Frames(2)),
    );

    press_key(&mut app, KeyCode::KeyA);
    update(&mut app);
    assert!(app.event_sent.iter().next().is_none());

    clear_just_pressed(&mut app, KeyCode::KeyA);
    update(&mut app);

    press_key(&mut app, KeyCode::KeyB);
    update(&mut app);
    assert!(app.event_sent.iter().next().is_some());
}

#[test]
fn timeout_3frames() {
    let mut app = new_app();

    let system = register(&mut app, Action::SendEvent);
    add_key_sequence(
        &mut app,
        InputSequence::new(
            system,
            vec![
                Act::from(KeyCode::KeyA),
                Act::from(KeyCode::KeyB),
                Act::from(KeyCode::KeyC),
            ],
        )
        .time_limit(TimeLimit::Frames(2)),
    );

    press_key(&mut app, KeyCode::KeyA);
    update(&mut app);
    assert!(app.event_sent.iter().next().is_none());

    clear_just_pressed(&mut app, KeyCode::KeyA);
    update(&mut app);

    press_key(&mut app, KeyCode::KeyB);
    update(&mut app);
    assert!(app.event_sent.iter().next().is_none());

    clear_just_pressed(&mut app, KeyCode::KeyB);
    update(&mut app);
    assert!(app.event_sent.iter().next().is_none());

    update(&mut app);
    assert!(app.event_sent.iter().next().is_none());
}
