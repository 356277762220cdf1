use input_sequence::{key, keyseq, KeyCode, Modifiers};

#[test]
fn before_cargo_format() {
    assert_eq!(
        [
            key("Ctrl-A").unwrap(),
            key("Ctrl-A").unwrap(),
            key(" Ctrl-A ").unwrap(),
            key("Ctrl-A").unwrap(),
            key("Ctrl-A").unwrap(),
            key(" Ctrl-A ").unwrap(),
            key("Ctrl-A").unwrap(),
            key("Ctrl-A").unwrap(),
            key(" Ctrl-A ").unwrap(),
        ],
        [
            (Modifiers(Modifiers::CONTROL), KeyCode::KeyA),
            (Modifiers(Modifiers::CONTROL), KeyCode::KeyA),
            (Modifiers(Modifiers::CONTROL), KeyCode::KeyA),
            (Modifiers(Modifiers::CONTROL), KeyCode::KeyA),
            (Modifiers(Modifiers::CONTROL), KeyCode::KeyA),
            (Modifiers(Modifiers::CONTROL), KeyCode::KeyA),
            (Modifiers(Modifiers::CONTROL), KeyCode::KeyA),
            (Modifiers(Modifiers::CONTROL), KeyCode::KeyA),
            (Modifiers(Modifiers::CONTROL), KeyCode::KeyA),
        ]
    );
}

#[test]
fn after_cargo_format() {
    assert_eq!(
        [
            key("Ctrl - A").unwrap(),
            key("Ctrl - A").unwrap(),
            key("Ctrl - A").unwrap(),
            key("Ctrl-A").unwrap(),
            key("Ctrl-A").unwrap(),
            key(" Ctrl-A ").unwrap(),
            key("Ctrl - A").unwrap(),
            key("Ctrl - A").unwrap(),
            key("Ctrl - A").unwrap(),
        ],
        [
            (Modifiers(Modifiers::CONTROL), KeyCode::KeyA),
            (Modifiers(Modifiers::CONTROL), KeyCode::KeyA),
            (Modifiers(Modifiers::CONTROL), KeyCode::KeyA),
            (Modifiers(Modifiers::CONTROL), KeyCode::KeyA),
            (Modifiers(Modifiers::CONTROL), KeyCode::KeyA),
            (Modifiers(Modifiers::CONTROL), KeyCode::KeyA),
            (Modifiers(Modifiers::CONTROL), KeyCode::KeyA),
            (Modifiers(Modifiers::CONTROL), KeyCode::KeyA),
            (Modifiers(Modifiers::CONTROL), KeyCode::KeyA),
        ]
    );
}

#[test]
fn test_keyseq_doc() {
    assert_eq!(
        keyseq("A B").unwrap(),
        [
            (Modifiers::empty(), KeyCode::KeyA),
            (Modifiers::empty(), KeyCode::KeyB)
        ]
    );
    assert_eq!(
        keyseq("Ctrl-A B").unwrap(),
        [
            (Modifiers(Modifiers::CONTROL), KeyCode::KeyA),
            (Modifiers::empty(), KeyCode::KeyB)
        ]
    );
    assert_eq!(
        keyseq("Ctrl-Alt-A Escape").unwrap(),
        [
            (
                Modifiers(Modifiers::ALT) | Modifiers(Modifiers::CONTROL),
                KeyCode::KeyA
            ),
            (Modifiers::empty(), KeyCode::Escape)
        ]
    );
    assert_eq!(
        keyseq("Ctrl-;").unwrap(),
        [(Modifiers(Modifiers::CONTROL), KeyCode::Semicolon)]
    );
    assert_eq!(
        keyseq("Ctrl-Semicolon").unwrap(),
        [(Modifiers(Modifiers::CONTROL), KeyCode::Semicolon)]
    );
}
