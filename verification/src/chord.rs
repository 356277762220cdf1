//! Key chords: a key together with the modifiers held.
use crate::key_code::KeyCode;
use crate::modifiers::Modifiers;
use std::collections::VecDeque;
use vstd::prelude::*;
use vstd::string::StringExecFns;

verus! {

/// A key chord: a set of modifiers and a key.
#[derive(Clone, Copy, Debug, PartialEq, Eq, Structural, PartialOrd, Ord, Hash)]
pub struct KeyChord(pub Modifiers, pub KeyCode);

impl KeyChord {
    /// How the chord is shown: the modifiers, a hyphen where any bit of them is
    /// set, and the short name of the key.
    pub open spec fn text(self) -> Seq<char> {
        self.0.text() + (if self.0.0 != 0 {
            "-"@
        } else {
            Seq::empty()
        }) + self.1.short()
    }

    /// The chord as text, such as `Ctrl-A`, `Ctrl-Shift-;` or `1`.
    pub fn to_string(&self) -> (text: String)
        ensures
            text@ == self.text(),
    {
        let mut text = self.0.to_string();
        if !self.0.is_empty() {
            text.append("-");
        }
        text.append(self.1.short_name());
        text
    }
}

/// The key is a modifier key.
pub fn is_modifier(key: KeyCode) -> (yes: bool)
    ensures
        yes == (Modifiers::of_key(key).0 != 0),
{
    !Modifiers::from_key(key).is_empty()
}

impl vstd::std_specs::convert::FromSpecImpl<(Modifiers, KeyCode)> for KeyChord {
    open spec fn obeys_from_spec() -> bool {
        true
    }

    open spec fn from_spec(pair: (Modifiers, KeyCode)) -> KeyChord {
        KeyChord(pair.0, pair.1)
    }
}

impl From<(Modifiers, KeyCode)> for KeyChord {
    /// The chord of these modifiers and this key.
    fn from(pair: (Modifiers, KeyCode)) -> (chord: KeyChord) {
        KeyChord(pair.0, pair.1)
    }
}

impl vstd::std_specs::convert::FromSpecImpl<KeyCode> for KeyChord {
    open spec fn obeys_from_spec() -> bool {
        true
    }

    open spec fn from_spec(key: KeyCode) -> KeyChord {
        KeyChord(Modifiers(Modifiers::NONE), key)
    }
}

impl From<KeyCode> for KeyChord {
    /// The chord of the key alone.
    fn from(key: KeyCode) -> (chord: KeyChord) {
        KeyChord(Modifiers::empty(), key)
    }
}

/// Chords to be handled as though the user had pressed them, before the keys of
/// the next frame.
#[derive(Debug)]
pub struct KeyChordQueue(pub VecDeque<KeyChord>);

impl Default for KeyChordQueue {
    fn default() -> (queue: KeyChordQueue)
        ensures
            queue.0@ == Seq::<KeyChord>::empty(),
    {
        KeyChordQueue(VecDeque::new())
    }
}

} // verus!
