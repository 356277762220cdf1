//! Modifier keys held while a key is pressed.
use crate::key_code::KeyCode;
use vstd::prelude::*;

verus! {

/// The modifier keys (Control, Alt, Shift, Super) that are held, one bit each.
#[derive(Clone, Copy, Debug, PartialEq, Eq, Structural, PartialOrd, Ord, Hash)]
pub struct Modifiers(pub u8);

impl Modifiers {
    /// No modifier key.
    pub const NONE: u8 = 0;

    /// The Control key, left or right.
    pub const CONTROL: u8 = 1;

    /// The Alt key, left or right.
    pub const ALT: u8 = 2;

    /// The Shift key, left or right.
    pub const SHIFT: u8 = 4;

    /// The Super (Command, Windows) key, left or right.
    pub const SUPER: u8 = 8;

    /// Every bit of `flag` is set.
    pub open spec fn has(self, flag: u8) -> bool {
        self.0 & flag == flag
    }

    /// The names of the modifiers that are set, in the order Control, Alt,
    /// Shift, Super.
    pub open spec fn names(self) -> Seq<Seq<char>> {
        (if self.has(Modifiers::CONTROL) {
            seq!["Ctrl"@]
        } else {
            seq![]
        }) + (if self.has(Modifiers::ALT) {
            seq!["Alt"@]
        } else {
            seq![]
        }) + (if self.has(Modifiers::SHIFT) {
            seq!["Shift"@]
        } else {
            seq![]
        }) + (if self.has(Modifiers::SUPER) {
            seq!["Super"@]
        } else {
            seq![]
        })
    }

    /// How the modifiers are shown: their names with a hyphen between two.
    pub open spec fn text(self) -> Seq<char> {
        hyphenate(self.names())
    }

    /// The modifier that a key is: `NONE` for a key that is none.
    pub open spec fn of_key(key: KeyCode) -> Modifiers {
        match key {
            KeyCode::ShiftLeft | KeyCode::ShiftRight => Modifiers(Modifiers::SHIFT),
            KeyCode::ControlLeft | KeyCode::ControlRight => Modifiers(Modifiers::CONTROL),
            KeyCode::AltLeft | KeyCode::AltRight => Modifiers(Modifiers::ALT),
            KeyCode::SuperLeft | KeyCode::SuperRight => Modifiers(Modifiers::SUPER),
            _ => Modifiers(Modifiers::NONE),
        }
    }

    /// The modifiers that the keys held make up: each modifier of which a key,
    /// left or right, is among them.
    pub open spec fn of_keys(keys: Seq<KeyCode>) -> Modifiers
        decreases keys.len(),
    {
        if keys.len() == 0 {
            Modifiers(Modifiers::NONE)
        } else {
            Modifiers(Modifiers::of_keys(keys.drop_last()).0 | Modifiers::of_key(keys.last()).0)
        }
    }

    /// No modifier.
    pub fn empty() -> (mods: Modifiers)
        ensures
            mods == Modifiers(Modifiers::NONE),
    {
        Modifiers(Modifiers::NONE)
    }

    /// The bits.
    pub fn bits(&self) -> (bits: u8)
        ensures
            bits == self.0,
    {
        self.0
    }

    /// No bit is set.
    pub fn is_empty(&self) -> (none: bool)
        ensures
            none == (self.0 == 0),
    {
        self.0 == 0
    }

    /// Every modifier of `other` is set in `self`.
    pub fn contains(&self, other: Modifiers) -> (all: bool)
        ensures
            all == self.has(other.0),
    {
        self.0 & other.0 == other.0
    }

    /// The modifier that `key` is.
    pub fn from_key(key: KeyCode) -> (mods: Modifiers)
        ensures
            mods == Modifiers::of_key(key),
    {
        match key {
            KeyCode::ShiftLeft | KeyCode::ShiftRight => Modifiers(Modifiers::SHIFT),
            KeyCode::ControlLeft | KeyCode::ControlRight => Modifiers(Modifiers::CONTROL),
            KeyCode::AltLeft | KeyCode::AltRight => Modifiers(Modifiers::ALT),
            KeyCode::SuperLeft | KeyCode::SuperRight => Modifiers(Modifiers::SUPER),
            _ => Modifiers(Modifiers::NONE),
        }
    }

    /// The modifiers that are held, from the keys that are.
    pub fn from_keys(keys: &Vec<KeyCode>) -> (mods: Modifiers)
        ensures
            mods == Modifiers::of_keys(keys@),
    {
        let mut bits: u8 = Modifiers::NONE;
        let mut i: usize = 0;
        while i < keys.len()
            invariant
                i <= keys@.len(),
                Modifiers(bits) == Modifiers::of_keys(keys@.take(i as int)),
            decreases keys@.len() - i,
        {
            assert(keys@.take(i + 1).drop_last() == keys@.take(i as int));
            bits = bits | Modifiers::from_key(keys[i]).0;
            i += 1;
        }
        assert(keys@.take(i as int) == keys@);
        Modifiers(bits)
    }

    /// The modifiers as text, such as `Ctrl-Shift`.
    pub fn to_string(&self) -> (text: String)
        ensures
            text@ == self.text(),
    {
        display(*self)
    }
}

/// The parts in order, with a hyphen between two neighbours.
pub open spec fn hyphenate(parts: Seq<Seq<char>>) -> Seq<char>
    decreases parts.len(),
{
    if parts.len() == 0 {
        Seq::empty()
    } else if parts.len() == 1 {
        parts[0]
    } else {
        hyphenate(parts.drop_last()) + "-"@ + parts.last()
    }
}

/// `Display` of `keyseq::Modifiers`: writes `Ctrl`, `Alt`, `Shift` and `Super`,
/// in this order, for each of the four flags that is set, and a hyphen before
/// each but the first written. Taken on trust.
#[verifier::external_body]
fn display(mods: Modifiers) -> (text: String)
    ensures
        text@ == mods.text(),
{
    format!("{}", keyseq::Modifiers(mods.0))
}

impl vstd::std_specs::ops::BitOrSpecImpl for Modifiers {
    open spec fn obeys_bitor_spec() -> bool {
        true
    }

    open spec fn bitor_req(self, rhs: Modifiers) -> bool {
        true
    }

    open spec fn bitor_spec(self, rhs: Modifiers) -> Modifiers {
        Modifiers(self.0 | rhs.0)
    }
}

impl std::ops::BitOr for Modifiers {
    type Output = Modifiers;

    /// The modifiers of either side.
    fn bitor(self, rhs: Modifiers) -> (both: Modifiers) {
        Modifiers(self.0 | rhs.0)
    }
}

} // verus!
