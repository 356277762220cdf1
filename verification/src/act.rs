//! Acts: the symbols that input sequences are made of.
use crate::chord::KeyChord;
use crate::key_code::{lemma_key_code_injective, KeyCode, FIRST_NAMED, NAMED_KEYS};
use crate::modifiers::Modifiers;
use vstd::prelude::*;

verus! {

/// A button of a game controller.
#[derive(Clone, Copy, Debug, PartialEq, Eq, Structural, PartialOrd, Ord, Hash)]
pub enum GamepadButton {
    /// The bottom action button.
    South,
    /// The right action button.
    East,
    /// The upper action button.
    North,
    /// The left action button.
    West,
    /// The C button.
    C,
    /// The Z button.
    Z,
    /// The first left trigger.
    LeftTrigger,
    /// The second left trigger.
    LeftTrigger2,
    /// The first right trigger.
    RightTrigger,
    /// The second right trigger.
    RightTrigger2,
    /// The select button.
    Select,
    /// The start button.
    Start,
    /// The mode button.
    Mode,
    /// The left thumb stick button.
    LeftThumb,
    /// The right thumb stick button.
    RightThumb,
    /// Up on the D-pad.
    DPadUp,
    /// Down on the D-pad.
    DPadDown,
    /// Left on the D-pad.
    DPadLeft,
    /// Right on the D-pad.
    DPadRight,
    /// A button outside the standard set, by its number.
    Other(u8),
}

impl GamepadButton {
    /// The number that stands for this button where buttons are compared: its
    /// place in the standard set, or 256 plus its number for another.
    pub open spec fn code(self) -> u64 {
        match self {
            GamepadButton::South => 0,
            GamepadButton::East => 1,
            GamepadButton::North => 2,
            GamepadButton::West => 3,
            GamepadButton::C => 4,
            GamepadButton::Z => 5,
            GamepadButton::LeftTrigger => 6,
            GamepadButton::LeftTrigger2 => 7,
            GamepadButton::RightTrigger => 8,
            GamepadButton::RightTrigger2 => 9,
            GamepadButton::Select => 10,
            GamepadButton::Start => 11,
            GamepadButton::Mode => 12,
            GamepadButton::LeftThumb => 13,
            GamepadButton::RightThumb => 14,
            GamepadButton::DPadUp => 15,
            GamepadButton::DPadDown => 16,
            GamepadButton::DPadLeft => 17,
            GamepadButton::DPadRight => 18,
            GamepadButton::Other(n) => (256 + n) as u64,
        }
    }

    /// Computes [`GamepadButton::code`].
    pub fn to_code(&self) -> (code: u64)
        ensures
            code == self.code(),
            code < 512,
    {
        match self {
            GamepadButton::South => 0,
            GamepadButton::East => 1,
            GamepadButton::North => 2,
            GamepadButton::West => 3,
            GamepadButton::C => 4,
            GamepadButton::Z => 5,
            GamepadButton::LeftTrigger => 6,
            GamepadButton::LeftTrigger2 => 7,
            GamepadButton::RightTrigger => 8,
            GamepadButton::RightTrigger2 => 9,
            GamepadButton::Select => 10,
            GamepadButton::Start => 11,
            GamepadButton::Mode => 12,
            GamepadButton::LeftThumb => 13,
            GamepadButton::RightThumb => 14,
            GamepadButton::DPadUp => 15,
            GamepadButton::DPadDown => 16,
            GamepadButton::DPadLeft => 17,
            GamepadButton::DPadRight => 18,
            GamepadButton::Other(n) => 256 + widen(*n),
        }
    }
}

fn widen(n: u8) -> (wide: u64)
    ensures
        wide == n,
{
    n as u64
}

/// The span of codes that each value of the modifier byte has for its keys.
pub const CHORD_SPAN: u64 = 0x1_0000_0000_0000;

/// The first code of a controller button; the codes below it are those of
/// keyboard chords.
pub const FIRST_BUTTON: u64 = 0x1000_0000_0000_0000;

/// One input event: a key pressed with the modifiers held, or a button of a
/// controller pressed.
#[derive(Clone, Copy, Debug, PartialEq, Eq, Structural, PartialOrd, Ord, Hash)]
pub enum Act {
    /// A key press such as `A`, or a chord such as `Ctrl-B`.
    KeyChord(Modifiers, KeyCode),
    /// A press of a controller button.
    PadButton(GamepadButton),
}

impl Act {
    /// The number under which sequences are indexed: equal for equal acts and
    /// for no others (see [`lemma_act_code_injective`]).
    pub open spec fn code(self) -> u64 {
        match self {
            Act::KeyChord(mods, key) => (mods.0 * CHORD_SPAN + key.code()) as u64,
            Act::PadButton(button) => (FIRST_BUTTON + button.code()) as u64,
        }
    }

    /// Computes [`Act::code`].
    pub fn to_code(&self) -> (code: u64)
        ensures
            code == self.code(),
    {
        match self {
            Act::KeyChord(mods, key) => {
                let high: u64 = widen(mods.0);
                let low: u64 = key.to_code();
                assert(high * CHORD_SPAN <= 255 * CHORD_SPAN) by (nonlinear_arith)
                    requires
                        high <= 255,
                ;
                high * CHORD_SPAN + low
            },
            Act::PadButton(button) => FIRST_BUTTON + button.to_code(),
        }
    }
}

/// The codes of a sequence of acts, one for one.
pub open spec fn codes(acts: Seq<Act>) -> Seq<u64> {
    Seq::new(acts.len(), |i: int| acts[i].code())
}

/// Two buttons with one code are one button.
pub proof fn lemma_button_code_injective(a: GamepadButton, b: GamepadButton)
    requires
        a.code() == b.code(),
    ensures
        a == b,
{
}

/// Two acts with one code are one act: the index tells acts apart exactly as
/// equality does.
pub proof fn lemma_act_code_injective(a: Act, b: Act)
    requires
        a.code() == b.code(),
    ensures
        a == b,
{
    match (a, b) {
        (Act::KeyChord(m, j), Act::KeyChord(n, k)) => {
            assert(j.code() <= FIRST_NAMED + NAMED_KEYS);
            assert(k.code() <= FIRST_NAMED + NAMED_KEYS);
            assert(m.0 == n.0) by (nonlinear_arith)
                requires
                    m.0 * CHORD_SPAN + j.code() == n.0 * CHORD_SPAN + k.code(),
                    j.code() < CHORD_SPAN,
                    k.code() < CHORD_SPAN,
            ;
            lemma_key_code_injective(j, k);
        },
        (Act::PadButton(x), Act::PadButton(y)) => {
            lemma_button_code_injective(x, y);
        },
        (Act::KeyChord(m, j), Act::PadButton(_)) => {
            assert(m.0 * CHORD_SPAN + j.code() < FIRST_BUTTON) by (nonlinear_arith)
                requires
                    m.0 <= 255,
                    j.code() < CHORD_SPAN,
            ;
        },
        (Act::PadButton(_), Act::KeyChord(n, k)) => {
            assert(n.0 * CHORD_SPAN + k.code() < FIRST_BUTTON) by (nonlinear_arith)
                requires
                    n.0 <= 255,
                    k.code() < CHORD_SPAN,
            ;
        },
    }
}

/// Two sequences of acts with the same codes are one sequence.
pub proof fn lemma_codes_injective(a: Seq<Act>, b: Seq<Act>)
    requires
        codes(a) == codes(b),
    ensures
        a == b,
{
    assert(a.len() == codes(a).len());
    assert(b.len() == codes(b).len());
    assert forall|i: int| 0 <= i < a.len() implies a[i] == b[i] by {
        assert(codes(a)[i] == a[i].code());
        assert(codes(b)[i] == b[i].code());
        lemma_act_code_injective(a[i], b[i]);
    }
    assert(a =~= b);
}

impl vstd::std_specs::convert::FromSpecImpl<KeyChord> for Act {
    open spec fn obeys_from_spec() -> bool {
        true
    }

    open spec fn from_spec(chord: KeyChord) -> Act {
        Act::KeyChord(chord.0, chord.1)
    }
}

impl From<KeyChord> for Act {
    /// The act of pressing the chord.
    fn from(chord: KeyChord) -> (act: Act) {
        Act::KeyChord(chord.0, chord.1)
    }
}

impl vstd::std_specs::convert::FromSpecImpl<KeyCode> for Act {
    open spec fn obeys_from_spec() -> bool {
        true
    }

    open spec fn from_spec(key: KeyCode) -> Act {
        Act::KeyChord(Modifiers(Modifiers::NONE), key)
    }
}

impl From<KeyCode> for Act {
    /// The act of pressing the key with no modifier held.
    fn from(key: KeyCode) -> (act: Act) {
        Act::KeyChord(Modifiers::empty(), key)
    }
}

impl vstd::std_specs::convert::FromSpecImpl<GamepadButton> for Act {
    open spec fn obeys_from_spec() -> bool {
        true
    }

    open spec fn from_spec(button: GamepadButton) -> Act {
        Act::PadButton(button)
    }
}

impl From<GamepadButton> for Act {
    /// The act of pressing the button.
    fn from(button: GamepadButton) -> (act: Act) {
        Act::PadButton(button)
    }
}

} // verus!
