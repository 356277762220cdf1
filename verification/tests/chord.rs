use input_sequence::act::{FIRST_BUTTON};
use input_sequence::chord::is_modifier;
use input_sequence::key_code::NativeKeyCode;
use input_sequence::{key, keyseq, Act, GamepadButton, KeyChord, KeyCode, Modifiers};

#[test]
fn chord_with_two_modifiers_reads_back() {
    let chord = KeyChord(
        Modifiers(Modifiers::CONTROL) | Modifiers(Modifiers::SHIFT),
        KeyCode::KeyA,
    );
    let text = chord.to_string();
    assert_eq!(text, "Ctrl-Shift-A");
    assert_eq!(KeyChord::from(key(&text).unwrap()), chord);
}

#[test]
fn chord_with_every_modifier_reads_back() {
    let chord = KeyChord(Modifiers(15), KeyCode::F12);
    let text = chord.to_string();
    assert_eq!(text, "Ctrl-Alt-Shift-Super-F12");
    assert_eq!(KeyChord::from(key(&text).unwrap()), chord);
}

#[test]
fn punctuation_keys_show_their_sign() {
    let shown = |key: KeyCode| KeyChord::from(key).to_string();
    assert_eq!(shown(KeyCode::Semicolon), ";");
    assert_eq!(shown(KeyCode::Period), ".");
    assert_eq!(shown(KeyCode::Equal), "=");
    assert_eq!(shown(KeyCode::Slash), "/");
    assert_eq!(shown(KeyCode::Minus), "-");
    assert_eq!(shown(KeyCode::BracketLeft), "[");
    assert_eq!(shown(KeyCode::BracketRight), "]");
    assert_eq!(shown(KeyCode::Quote), "'");
    assert_eq!(shown(KeyCode::Backquote), "`");
}

#[test]
fn punctuation_with_modifiers_reads_back() {
    let chord = KeyChord(Modifiers(Modifiers::ALT), KeyCode::Minus);
    assert_eq!(chord.to_string(), "Alt--");
    assert_eq!(KeyChord::from(key("Alt--").unwrap()), chord);
    let chord = KeyChord(Modifiers(Modifiers::SUPER), KeyCode::Semicolon);
    assert_eq!(chord.to_string(), "Super-;");
    assert_eq!(KeyChord::from(key("Super-;").unwrap()), chord);
}

#[test]
fn other_keys_show_their_name() {
    let shown = |key: KeyCode| KeyChord::from(key).to_string();
    assert_eq!(shown(KeyCode::KeyZ), "Z");
    assert_eq!(shown(KeyCode::Digit0), "0");
    assert_eq!(shown(KeyCode::Comma), "Comma");
    assert_eq!(shown(KeyCode::Backslash), "Backslash");
    assert_eq!(shown(KeyCode::KanaMode), "KanaMode");
    assert_eq!(shown(KeyCode::Numpad7), "Numpad7");
    assert_eq!(shown(KeyCode::F35), "F35");
    assert_eq!(
        shown(KeyCode::Unidentified(NativeKeyCode::Xkb(9))),
        "Unidentified"
    );
}

#[test]
fn modifiers_show_in_a_fixed_order() {
    assert_eq!(Modifiers::empty().to_string(), "");
    assert_eq!(Modifiers(Modifiers::CONTROL).to_string(), "Ctrl");
    assert_eq!(Modifiers(Modifiers::ALT).to_string(), "Alt");
    assert_eq!(Modifiers(Modifiers::SHIFT).to_string(), "Shift");
    assert_eq!(Modifiers(Modifiers::SUPER).to_string(), "Super");
    assert_eq!(
        (Modifiers(Modifiers::SUPER) | Modifiers(Modifiers::ALT)).to_string(),
        "Alt-Super"
    );
    assert_eq!(Modifiers(7).to_string(), "Ctrl-Alt-Shift");
    assert_eq!(Modifiers(15).to_string(), "Ctrl-Alt-Shift-Super");
}

#[test]
fn bits_beyond_the_four_flags_show_as_nothing() {
    assert_eq!(Modifiers(16).to_string(), "");
    assert_eq!(KeyChord(Modifiers(16), KeyCode::KeyA).to_string(), "-A");
}

#[test]
fn modifiers_answer_for_their_flags() {
    let mods = Modifiers(Modifiers::CONTROL) | Modifiers(Modifiers::SHIFT);
    assert_eq!(mods.bits(), 5);
    assert!(mods.contains(Modifiers(Modifiers::CONTROL)));
    assert!(mods.contains(Modifiers(Modifiers::SHIFT)));
    assert!(!mods.contains(Modifiers(Modifiers::ALT)));
    assert!(!mods.is_empty());
    assert!(Modifiers::empty().is_empty());
    assert_eq!(Modifiers::empty(), Modifiers(Modifiers::NONE));
}

#[test]
fn modifier_keys_are_told_from_the_others() {
    assert_eq!(Modifiers::from_key(KeyCode::ShiftLeft), Modifiers(Modifiers::SHIFT));
    assert_eq!(Modifiers::from_key(KeyCode::ShiftRight), Modifiers(Modifiers::SHIFT));
    assert_eq!(Modifiers::from_key(KeyCode::ControlLeft), Modifiers(Modifiers::CONTROL));
    assert_eq!(Modifiers::from_key(KeyCode::AltRight), Modifiers(Modifiers::ALT));
    assert_eq!(Modifiers::from_key(KeyCode::SuperLeft), Modifiers(Modifiers::SUPER));
    assert_eq!(Modifiers::from_key(KeyCode::KeyA), Modifiers::empty());
    assert!(is_modifier(KeyCode::SuperRight));
    assert!(is_modifier(KeyCode::AltLeft));
    assert!(!is_modifier(KeyCode::Space));
    assert!(!is_modifier(KeyCode::Meta));
}

#[test]
fn held_keys_make_up_the_modifiers() {
    assert_eq!(Modifiers::from_keys(&vec![]), Modifiers::empty());
    assert_eq!(
        Modifiers::from_keys(&vec![KeyCode::KeyA, KeyCode::Space]),
        Modifiers::empty()
    );
    assert_eq!(
        Modifiers::from_keys(&vec![
            KeyCode::ShiftRight,
            KeyCode::KeyA,
            KeyCode::ControlLeft,
            KeyCode::ShiftLeft
        ]),
        Modifiers(Modifiers::SHIFT | Modifiers::CONTROL)
    );
    assert_eq!(
        Modifiers::from_keys(&vec![KeyCode::SuperLeft, KeyCode::AltRight]),
        Modifiers(Modifiers::SUPER | Modifiers::ALT)
    );
}

#[test]
fn acts_have_codes_of_their_own() {
    let plain = Act::from(KeyCode::KeyA).to_code();
    assert_eq!(plain, 0x100_0000_0000 + 20);
    assert_eq!(
        Act::KeyChord(Modifiers(Modifiers::CONTROL), KeyCode::KeyA).to_code(),
        0x1_0000_0000_0000 + 0x100_0000_0000 + 20
    );
    assert_eq!(Act::from(GamepadButton::South).to_code(), FIRST_BUTTON);
    assert_eq!(Act::from(GamepadButton::DPadRight).to_code(), FIRST_BUTTON + 18);
    assert_eq!(Act::from(GamepadButton::Other(3)).to_code(), FIRST_BUTTON + 259);
    assert_eq!(
        Act::from(KeyCode::Unidentified(NativeKeyCode::Unidentified)).to_code(),
        0
    );
    assert_eq!(
        Act::from(KeyCode::Unidentified(NativeKeyCode::Windows(7))).to_code(),
        0x3_0000_0007
    );
    assert_eq!(
        Act::from(KeyChord(Modifiers(255), KeyCode::F35)).to_code(),
        255 * 0x1_0000_0000_0000 + 0x100_0000_0000 + 194
    );
}

#[test]
fn keys_are_found_again_by_their_place() {
    assert_eq!(KeyCode::from_ordinal(0), None);
    assert_eq!(KeyCode::from_ordinal(1), Some(KeyCode::Backquote));
    assert_eq!(KeyCode::from_ordinal(194), Some(KeyCode::F35));
    assert_eq!(KeyCode::from_ordinal(195), None);
    for ordinal in 1..=194u64 {
        let key = KeyCode::from_ordinal(ordinal).unwrap();
        assert_eq!(key.to_ordinal(), ordinal);
        assert_eq!(key.to_code(), 0x100_0000_0000 + ordinal);
    }
    assert_eq!(KeyCode::Unidentified(NativeKeyCode::Android(1)).to_ordinal(), 0);
}

#[test]
fn every_named_key_reads_back_from_its_name() {
    for ordinal in 1..=194u64 {
        let named = KeyCode::from_ordinal(ordinal).unwrap();
        let name = named.variant_name();
        if name.len() > 1 {
            assert_eq!(key(name), Some((Modifiers::empty(), named)));
        }
        let chord = KeyChord(Modifiers(Modifiers::CONTROL), named);
        let shown = chord.to_string();
        let quoted = ["[", "]", "'", "`"].iter().any(|sign| shown.ends_with(sign));
        if !quoted {
            assert_eq!(key(&shown).map(KeyChord::from), Some(chord));
        }
    }
}

#[test]
fn text_that_is_no_chord_is_refused() {
    assert_eq!(key(""), None);
    assert_eq!(key("   "), None);
    assert_eq!(key("Ctrl"), None);
    assert_eq!(key("a"), None);
    assert_eq!(key("_"), None);
    assert_eq!(key("Foo-A"), None);
    assert_eq!(key("Ctrl-NoSuchKey"), None);
    assert_eq!(key("Unidentified"), None);
    assert_eq!(key("12"), None);
    assert_eq!(key("Ctrl-*"), None);
    assert_eq!(key("Ctrl+A"), None);
    assert_eq!(key("'"), None);
    assert_eq!(key("'ab'"), None);
    assert_eq!(key("Ctrl-'x'"), None);
    assert_eq!(key("A B"), None);
    assert_eq!(keyseq(""), None);
    assert_eq!(keyseq("A b"), None);
    assert_eq!(keyseq("A Ctrl"), None);
}

#[test]
fn modifiers_out_of_order_are_refused() {
    assert_eq!(key("Alt-Ctrl-A"), None);
    assert_eq!(key("Shift-Alt-A"), None);
    assert_eq!(key("Super-Ctrl-A"), None);
    assert_eq!(key("Ctrl-Shift-Alt-A"), None);
    assert_eq!(
        key("Alt-Super-A"),
        Some((
            Modifiers(Modifiers::ALT) | Modifiers(Modifiers::SUPER),
            KeyCode::KeyA
        ))
    );
    assert_eq!(
        key("Shift-Shift-A"),
        Some((Modifiers(Modifiers::SHIFT), KeyCode::KeyA))
    );
}

#[test]
fn hyphens_alone_are_passed_over() {
    assert_eq!(key("-"), Some((Modifiers::empty(), KeyCode::Minus)));
    assert_eq!(key("--"), Some((Modifiers::empty(), KeyCode::Minus)));
    assert_eq!(key("-A"), Some((Modifiers::empty(), KeyCode::KeyA)));
    assert_eq!(
        key("Ctrl-"),
        Some((Modifiers(Modifiers::CONTROL), KeyCode::Minus))
    );
    assert_eq!(
        keyseq("Ctrl-- B"),
        Some(vec![(Modifiers(Modifiers::CONTROL), KeyCode::KeyB)])
    );
}

#[test]
fn sequences_of_chords_are_read_in_order() {
    assert_eq!(
        keyseq("Ctrl-X\tCtrl-S\n1 , F10").unwrap(),
        vec![
            (Modifiers(Modifiers::CONTROL), KeyCode::KeyX),
            (Modifiers(Modifiers::CONTROL), KeyCode::KeyS),
            (Modifiers::empty(), KeyCode::Digit1),
            (Modifiers::empty(), KeyCode::Comma),
            (Modifiers::empty(), KeyCode::F10),
        ]
    );
}
