//! Physical keys: the key identifiers that a keyboard chord carries.
use vstd::prelude::*;

verus! {

/// A platform-native key code, for a key that has no name here.
#[derive(Clone, Copy, Debug, PartialEq, Eq, Structural, PartialOrd, Ord, Hash)]
pub enum NativeKeyCode {
    /// No code is known.
    Unidentified,
    /// An Android scancode.
    Android(u32),
    /// A macOS scancode.
    MacOS(u16),
    /// A Windows scancode.
    Windows(u16),
    /// An XKB keycode.
    Xkb(u32),
}

impl NativeKeyCode {
    /// The number that stands for this code: the platform in the high part,
    /// the scancode in the low 32 bits.
    pub open spec fn code(self) -> u64 {
        match self {
            NativeKeyCode::Unidentified => 0,
            NativeKeyCode::Android(c) => (0x1_0000_0000 + c) as u64,
            NativeKeyCode::MacOS(c) => (0x2_0000_0000 + c) as u64,
            NativeKeyCode::Windows(c) => (0x3_0000_0000 + c) as u64,
            NativeKeyCode::Xkb(c) => (0x4_0000_0000 + c) as u64,
        }
    }

    /// Computes [`NativeKeyCode::code`].
    pub fn to_code(&self) -> (code: u64)
        ensures
            code == self.code(),
            code < 0x5_0000_0000,
    {
        match self {
            NativeKeyCode::Unidentified => 0,
            NativeKeyCode::Android(c) => 0x1_0000_0000u64 + widen32(*c),
            NativeKeyCode::MacOS(c) => 0x2_0000_0000u64 + widen16(*c),
            NativeKeyCode::Windows(c) => 0x3_0000_0000u64 + widen16(*c),
            NativeKeyCode::Xkb(c) => 0x4_0000_0000u64 + widen32(*c),
        }
    }
}

fn widen32(c: u32) -> (wide: u64)
    ensures
        wide == c,
{
    c as u64
}

fn widen16(c: u16) -> (wide: u64)
    ensures
        wide == c,
{
    c as u64
}

/// The location of a physical key, after the `code` values of the UI Events
/// specification.
#[derive(Clone, Copy, Debug, PartialEq, Eq, Structural, PartialOrd, Ord, Hash)]
pub enum KeyCode {
    /// A key without a name, with what the platform calls it.
    Unidentified(NativeKeyCode),
    Backquote,
    Backslash,
    BracketLeft,
    BracketRight,
    Comma,
    Digit0,
    Digit1,
    Digit2,
    Digit3,
    Digit4,
    Digit5,
    Digit6,
    Digit7,
    Digit8,
    Digit9,
    Equal,
    IntlBackslash,
    IntlRo,
    IntlYen,
    KeyA,
    KeyB,
    KeyC,
    KeyD,
    KeyE,
    KeyF,
    KeyG,
    KeyH,
    KeyI,
    KeyJ,
    KeyK,
    KeyL,
    KeyM,
    KeyN,
    KeyO,
    KeyP,
    KeyQ,
    KeyR,
    KeyS,
    KeyT,
    KeyU,
    KeyV,
    KeyW,
    KeyX,
    KeyY,
    KeyZ,
    Minus,
    Period,
    Quote,
    Semicolon,
    Slash,
    AltLeft,
    AltRight,
    Backspace,
    CapsLock,
    ContextMenu,
    ControlLeft,
    ControlRight,
    Enter,
    SuperLeft,
    SuperRight,
    ShiftLeft,
    ShiftRight,
    Space,
    Tab,
    Convert,
    KanaMode,
    Lang1,
    Lang2,
    Lang3,
    Lang4,
    Lang5,
    NonConvert,
    Delete,
    End,
    Help,
    Home,
    Insert,
    PageDown,
    PageUp,
    ArrowDown,
    ArrowLeft,
    ArrowRight,
    ArrowUp,
    NumLock,
    Numpad0,
    Numpad1,
    Numpad2,
    Numpad3,
    Numpad4,
    Numpad5,
    Numpad6,
    Numpad7,
    Numpad8,
    Numpad9,
    NumpadAdd,
    NumpadBackspace,
    NumpadClear,
    NumpadClearEntry,
    NumpadComma,
    NumpadDecimal,
    NumpadDivide,
    NumpadEnter,
    NumpadEqual,
    NumpadHash,
    NumpadMemoryAdd,
    NumpadMemoryClear,
    NumpadMemoryRecall,
    NumpadMemoryStore,
    NumpadMemorySubtract,
    NumpadMultiply,
    NumpadParenLeft,
    NumpadParenRight,
    NumpadStar,
    NumpadSubtract,
    Escape,
    Fn,
    FnLock,
    PrintScreen,
    ScrollLock,
    Pause,
    BrowserBack,
    BrowserFavorites,
    BrowserForward,
    BrowserHome,
    BrowserRefresh,
    BrowserSearch,
    BrowserStop,
    Eject,
    LaunchApp1,
    LaunchApp2,
    LaunchMail,
    MediaPlayPause,
    MediaSelect,
    MediaStop,
    MediaTrackNext,
    MediaTrackPrevious,
    Power,
    Sleep,
    AudioVolumeDown,
    AudioVolumeMute,
    AudioVolumeUp,
    WakeUp,
    Meta,
    Hyper,
    Turbo,
    Abort,
    Resume,
    Suspend,
    Again,
    Copy,
    Cut,
    Find,
    Open,
    Paste,
    Props,
    Select,
    Undo,
    Hiragana,
    Katakana,
    F1,
    F2,
    F3,
    F4,
    F5,
    F6,
    F7,
    F8,
    F9,
    F10,
    F11,
    F12,
    F13,
    F14,
    F15,
    F16,
    F17,
    F18,
    F19,
    F20,
    F21,
    F22,
    F23,
    F24,
    F25,
    F26,
    F27,
    F28,
    F29,
    F30,
    F31,
    F32,
    F33,
    F34,
    F35,
}

/// How many keys have a name.
pub const NAMED_KEYS: u64 = 194;

/// The first code of a named key; the codes below it are those of
/// [`NativeKeyCode`].
pub const FIRST_NAMED: u64 = 0x100_0000_0000;

impl KeyCode {
    /// The place of a named key in the list of keys, counted from 1; 0 for a
    /// key without a name.
    pub open spec fn ordinal(self) -> u64 {
        match self {
            KeyCode::Unidentified(_) => 0,
            KeyCode::Backquote => 1,
            KeyCode::Backslash => 2,
            KeyCode::BracketLeft => 3,
            KeyCode::BracketRight => 4,
            KeyCode::Comma => 5,
            KeyCode::Digit0 => 6,
            KeyCode::Digit1 => 7,
            KeyCode::Digit2 => 8,
            KeyCode::Digit3 => 9,
            KeyCode::Digit4 => 10,
            KeyCode::Digit5 => 11,
            KeyCode::Digit6 => 12,
            KeyCode::Digit7 => 13,
            KeyCode::Digit8 => 14,
            KeyCode::Digit9 => 15,
            KeyCode::Equal => 16,
            KeyCode::IntlBackslash => 17,
            KeyCode::IntlRo => 18,
            KeyCode::IntlYen => 19,
            KeyCode::KeyA => 20,
            KeyCode::KeyB => 21,
            KeyCode::KeyC => 22,
            KeyCode::KeyD => 23,
            KeyCode::KeyE => 24,
            KeyCode::KeyF => 25,
            KeyCode::KeyG => 26,
            KeyCode::KeyH => 27,
            KeyCode::KeyI => 28,
            KeyCode::KeyJ => 29,
            KeyCode::KeyK => 30,
            KeyCode::KeyL => 31,
            KeyCode::KeyM => 32,
            KeyCode::KeyN => 33,
            KeyCode::KeyO => 34,
            KeyCode::KeyP => 35,
            KeyCode::KeyQ => 36,
            KeyCode::KeyR => 37,
            KeyCode::KeyS => 38,
            KeyCode::KeyT => 39,
            KeyCode::KeyU => 40,
            KeyCode::KeyV => 41,
            KeyCode::KeyW => 42,
            KeyCode::KeyX => 43,
            KeyCode::KeyY => 44,
            KeyCode::KeyZ => 45,
            KeyCode::Minus => 46,
            KeyCode::Period => 47,
            KeyCode::Quote => 48,
            KeyCode::Semicolon => 49,
            KeyCode::Slash => 50,
            KeyCode::AltLeft => 51,
            KeyCode::AltRight => 52,
            KeyCode::Backspace => 53,
            KeyCode::CapsLock => 54,
            KeyCode::ContextMenu => 55,
            KeyCode::ControlLeft => 56,
            KeyCode::ControlRight => 57,
            KeyCode::Enter => 58,
            KeyCode::SuperLeft => 59,
            KeyCode::SuperRight => 60,
            KeyCode::ShiftLeft => 61,
            KeyCode::ShiftRight => 62,
            KeyCode::Space => 63,
            KeyCode::Tab => 64,
            KeyCode::Convert => 65,
            KeyCode::KanaMode => 66,
            KeyCode::Lang1 => 67,
            KeyCode::Lang2 => 68,
            KeyCode::Lang3 => 69,
            KeyCode::Lang4 => 70,
            KeyCode::Lang5 => 71,
            KeyCode::NonConvert => 72,
            KeyCode::Delete => 73,
            KeyCode::End => 74,
            KeyCode::Help => 75,
            KeyCode::Home => 76,
            KeyCode::Insert => 77,
            KeyCode::PageDown => 78,
            KeyCode::PageUp => 79,
            KeyCode::ArrowDown => 80,
            KeyCode::ArrowLeft => 81,
            KeyCode::ArrowRight => 82,
            KeyCode::ArrowUp => 83,
            KeyCode::NumLock => 84,
            KeyCode::Numpad0 => 85,
            KeyCode::Numpad1 => 86,
            KeyCode::Numpad2 => 87,
            KeyCode::Numpad3 => 88,
            KeyCode::Numpad4 => 89,
            KeyCode::Numpad5 => 90,
            KeyCode::Numpad6 => 91,
            KeyCode::Numpad7 => 92,
            KeyCode::Numpad8 => 93,
            KeyCode::Numpad9 => 94,
            KeyCode::NumpadAdd => 95,
            KeyCode::NumpadBackspace => 96,
            KeyCode::NumpadClear => 97,
            KeyCode::NumpadClearEntry => 98,
            KeyCode::NumpadComma => 99,
            KeyCode::NumpadDecimal => 100,
            KeyCode::NumpadDivide => 101,
            KeyCode::NumpadEnter => 102,
            KeyCode::NumpadEqual => 103,
            KeyCode::NumpadHash => 104,
            KeyCode::NumpadMemoryAdd => 105,
            KeyCode::NumpadMemoryClear => 106,
            KeyCode::NumpadMemoryRecall => 107,
            KeyCode::NumpadMemoryStore => 108,
            KeyCode::NumpadMemorySubtract => 109,
            KeyCode::NumpadMultiply => 110,
            KeyCode::NumpadParenLeft => 111,
            KeyCode::NumpadParenRight => 112,
            KeyCode::NumpadStar => 113,
            KeyCode::NumpadSubtract => 114,
            KeyCode::Escape => 115,
            KeyCode::Fn => 116,
            KeyCode::FnLock => 117,
            KeyCode::PrintScreen => 118,
            KeyCode::ScrollLock => 119,
            KeyCode::Pause => 120,
            KeyCode::BrowserBack => 121,
            KeyCode::BrowserFavorites => 122,
            KeyCode::BrowserForward => 123,
            KeyCode::BrowserHome => 124,
            KeyCode::BrowserRefresh => 125,
            KeyCode::BrowserSearch => 126,
            KeyCode::BrowserStop => 127,
            KeyCode::Eject => 128,
            KeyCode::LaunchApp1 => 129,
            KeyCode::LaunchApp2 => 130,
            KeyCode::LaunchMail => 131,
            KeyCode::MediaPlayPause => 132,
            KeyCode::MediaSelect => 133,
            KeyCode::MediaStop => 134,
            KeyCode::MediaTrackNext => 135,
            KeyCode::MediaTrackPrevious => 136,
            KeyCode::Power => 137,
            KeyCode::Sleep => 138,
            KeyCode::AudioVolumeDown => 139,
            KeyCode::AudioVolumeMute => 140,
            KeyCode::AudioVolumeUp => 141,
            KeyCode::WakeUp => 142,
            KeyCode::Meta => 143,
            KeyCode::Hyper => 144,
            KeyCode::Turbo => 145,
            KeyCode::Abort => 146,
            KeyCode::Resume => 147,
            KeyCode::Suspend => 148,
            KeyCode::Again => 149,
            KeyCode::Copy => 150,
            KeyCode::Cut => 151,
            KeyCode::Find => 152,
            KeyCode::Open => 153,
            KeyCode::Paste => 154,
            KeyCode::Props => 155,
            KeyCode::Select => 156,
            KeyCode::Undo => 157,
            KeyCode::Hiragana => 158,
            KeyCode::Katakana => 159,
            KeyCode::F1 => 160,
            KeyCode::F2 => 161,
            KeyCode::F3 => 162,
            KeyCode::F4 => 163,
            KeyCode::F5 => 164,
            KeyCode::F6 => 165,
            KeyCode::F7 => 166,
            KeyCode::F8 => 167,
            KeyCode::F9 => 168,
            KeyCode::F10 => 169,
            KeyCode::F11 => 170,
            KeyCode::F12 => 171,
            KeyCode::F13 => 172,
            KeyCode::F14 => 173,
            KeyCode::F15 => 174,
            KeyCode::F16 => 175,
            KeyCode::F17 => 176,
            KeyCode::F18 => 177,
            KeyCode::F19 => 178,
            KeyCode::F20 => 179,
            KeyCode::F21 => 180,
            KeyCode::F22 => 181,
            KeyCode::F23 => 182,
            KeyCode::F24 => 183,
            KeyCode::F25 => 184,
            KeyCode::F26 => 185,
            KeyCode::F27 => 186,
            KeyCode::F28 => 187,
            KeyCode::F29 => 188,
            KeyCode::F30 => 189,
            KeyCode::F31 => 190,
            KeyCode::F32 => 191,
            KeyCode::F33 => 192,
            KeyCode::F34 => 193,
            KeyCode::F35 => 194,
        }
    }

    /// Computes [`KeyCode::ordinal`].
    pub fn to_ordinal(&self) -> (ordinal: u64)
        ensures
            ordinal == self.ordinal(),
            ordinal <= NAMED_KEYS,
    {
        match self {
            KeyCode::Unidentified(_) => 0,
            KeyCode::Backquote => 1,
            KeyCode::Backslash => 2,
            KeyCode::BracketLeft => 3,
            KeyCode::BracketRight => 4,
            KeyCode::Comma => 5,
            KeyCode::Digit0 => 6,
            KeyCode::Digit1 => 7,
            KeyCode::Digit2 => 8,
            KeyCode::Digit3 => 9,
            KeyCode::Digit4 => 10,
            KeyCode::Digit5 => 11,
            KeyCode::Digit6 => 12,
            KeyCode::Digit7 => 13,
            KeyCode::Digit8 => 14,
            KeyCode::Digit9 => 15,
            KeyCode::Equal => 16,
            KeyCode::IntlBackslash => 17,
            KeyCode::IntlRo => 18,
            KeyCode::IntlYen => 19,
            KeyCode::KeyA => 20,
            KeyCode::KeyB => 21,
            KeyCode::KeyC => 22,
            KeyCode::KeyD => 23,
            KeyCode::KeyE => 24,
            KeyCode::KeyF => 25,
            KeyCode::KeyG => 26,
            KeyCode::KeyH => 27,
            KeyCode::KeyI => 28,
            KeyCode::KeyJ => 29,
            KeyCode::KeyK => 30,
            KeyCode::KeyL => 31,
            KeyCode::KeyM => 32,
            KeyCode::KeyN => 33,
            KeyCode::KeyO => 34,
            KeyCode::KeyP => 35,
            KeyCode::KeyQ => 36,
            KeyCode::KeyR => 37,
            KeyCode::KeyS => 38,
            KeyCode::KeyT => 39,
            KeyCode::KeyU => 40,
            KeyCode::KeyV => 41,
            KeyCode::KeyW => 42,
            KeyCode::KeyX => 43,
            KeyCode::KeyY => 44,
            KeyCode::KeyZ => 45,
            KeyCode::Minus => 46,
            KeyCode::Period => 47,
            KeyCode::Quote => 48,
            KeyCode::Semicolon => 49,
            KeyCode::Slash => 50,
            KeyCode::AltLeft => 51,
            KeyCode::AltRight => 52,
            KeyCode::Backspace => 53,
            KeyCode::CapsLock => 54,
            KeyCode::ContextMenu => 55,
            KeyCode::ControlLeft => 56,
            KeyCode::ControlRight => 57,
            KeyCode::Enter => 58,
            KeyCode::SuperLeft => 59,
            KeyCode::SuperRight => 60,
            KeyCode::ShiftLeft => 61,
            KeyCode::ShiftRight => 62,
            KeyCode::Space => 63,
            KeyCode::Tab => 64,
            KeyCode::Convert => 65,
            KeyCode::KanaMode => 66,
            KeyCode::Lang1 => 67,
            KeyCode::Lang2 => 68,
            KeyCode::Lang3 => 69,
            KeyCode::Lang4 => 70,
            KeyCode::Lang5 => 71,
            KeyCode::NonConvert => 72,
            KeyCode::Delete => 73,
            KeyCode::End => 74,
            KeyCode::Help => 75,
            KeyCode::Home => 76,
            KeyCode::Insert => 77,
            KeyCode::PageDown => 78,
            KeyCode::PageUp => 79,
            KeyCode::ArrowDown => 80,
            KeyCode::ArrowLeft => 81,
            KeyCode::ArrowRight => 82,
            KeyCode::ArrowUp => 83,
            KeyCode::NumLock => 84,
            KeyCode::Numpad0 => 85,
            KeyCode::Numpad1 => 86,
            KeyCode::Numpad2 => 87,
            KeyCode::Numpad3 => 88,
            KeyCode::Numpad4 => 89,
            KeyCode::Numpad5 => 90,
            KeyCode::Numpad6 => 91,
            KeyCode::Numpad7 => 92,
            KeyCode::Numpad8 => 93,
            KeyCode::Numpad9 => 94,
            KeyCode::NumpadAdd => 95,
            KeyCode::NumpadBackspace => 96,
            KeyCode::NumpadClear => 97,
            KeyCode::NumpadClearEntry => 98,
            KeyCode::NumpadComma => 99,
            KeyCode::NumpadDecimal => 100,
            KeyCode::NumpadDivide => 101,
            KeyCode::NumpadEnter => 102,
            KeyCode::NumpadEqual => 103,
            KeyCode::NumpadHash => 104,
            KeyCode::NumpadMemoryAdd => 105,
            KeyCode::NumpadMemoryClear => 106,
            KeyCode::NumpadMemoryRecall => 107,
            KeyCode::NumpadMemoryStore => 108,
            KeyCode::NumpadMemorySubtract => 109,
            KeyCode::NumpadMultiply => 110,
            KeyCode::NumpadParenLeft => 111,
            KeyCode::NumpadParenRight => 112,
            KeyCode::NumpadStar => 113,
            KeyCode::NumpadSubtract => 114,
            KeyCode::Escape => 115,
            KeyCode::Fn => 116,
            KeyCode::FnLock => 117,
            KeyCode::PrintScreen => 118,
            KeyCode::ScrollLock => 119,
            KeyCode::Pause => 120,
            KeyCode::BrowserBack => 121,
            KeyCode::BrowserFavorites => 122,
            KeyCode::BrowserForward => 123,
            KeyCode::BrowserHome => 124,
            KeyCode::BrowserRefresh => 125,
            KeyCode::BrowserSearch => 126,
            KeyCode::BrowserStop => 127,
            KeyCode::Eject => 128,
            KeyCode::LaunchApp1 => 129,
            KeyCode::LaunchApp2 => 130,
            KeyCode::LaunchMail => 131,
            KeyCode::MediaPlayPause => 132,
            KeyCode::MediaSelect => 133,
            KeyCode::MediaStop => 134,
            KeyCode::MediaTrackNext => 135,
            KeyCode::MediaTrackPrevious => 136,
            KeyCode::Power => 137,
            KeyCode::Sleep => 138,
            KeyCode::AudioVolumeDown => 139,
            KeyCode::AudioVolumeMute => 140,
            KeyCode::AudioVolumeUp => 141,
            KeyCode::WakeUp => 142,
            KeyCode::Meta => 143,
            KeyCode::Hyper => 144,
            KeyCode::Turbo => 145,
            KeyCode::Abort => 146,
            KeyCode::Resume => 147,
            KeyCode::Suspend => 148,
            KeyCode::Again => 149,
            KeyCode::Copy => 150,
            KeyCode::Cut => 151,
            KeyCode::Find => 152,
            KeyCode::Open => 153,
            KeyCode::Paste => 154,
            KeyCode::Props => 155,
            KeyCode::Select => 156,
            KeyCode::Undo => 157,
            KeyCode::Hiragana => 158,
            KeyCode::Katakana => 159,
            KeyCode::F1 => 160,
            KeyCode::F2 => 161,
            KeyCode::F3 => 162,
            KeyCode::F4 => 163,
            KeyCode::F5 => 164,
            KeyCode::F6 => 165,
            KeyCode::F7 => 166,
            KeyCode::F8 => 167,
            KeyCode::F9 => 168,
            KeyCode::F10 => 169,
            KeyCode::F11 => 170,
            KeyCode::F12 => 171,
            KeyCode::F13 => 172,
            KeyCode::F14 => 173,
            KeyCode::F15 => 174,
            KeyCode::F16 => 175,
            KeyCode::F17 => 176,
            KeyCode::F18 => 177,
            KeyCode::F19 => 178,
            KeyCode::F20 => 179,
            KeyCode::F21 => 180,
            KeyCode::F22 => 181,
            KeyCode::F23 => 182,
            KeyCode::F24 => 183,
            KeyCode::F25 => 184,
            KeyCode::F26 => 185,
            KeyCode::F27 => 186,
            KeyCode::F28 => 187,
            KeyCode::F29 => 188,
            KeyCode::F30 => 189,
            KeyCode::F31 => 190,
            KeyCode::F32 => 191,
            KeyCode::F33 => 192,
            KeyCode::F34 => 193,
            KeyCode::F35 => 194,
        }
    }

    /// The named key at a place of the list, if the place is one.
    pub open spec fn at(ordinal: u64) -> Option<KeyCode> {
        match ordinal {
            1 => Some(KeyCode::Backquote),
            2 => Some(KeyCode::Backslash),
            3 => Some(KeyCode::BracketLeft),
            4 => Some(KeyCode::BracketRight),
            5 => Some(KeyCode::Comma),
            6 => Some(KeyCode::Digit0),
            7 => Some(KeyCode::Digit1),
            8 => Some(KeyCode::Digit2),
            9 => Some(KeyCode::Digit3),
            10 => Some(KeyCode::Digit4),
            11 => Some(KeyCode::Digit5),
            12 => Some(KeyCode::Digit6),
            13 => Some(KeyCode::Digit7),
            14 => Some(KeyCode::Digit8),
            15 => Some(KeyCode::Digit9),
            16 => Some(KeyCode::Equal),
            17 => Some(KeyCode::IntlBackslash),
            18 => Some(KeyCode::IntlRo),
            19 => Some(KeyCode::IntlYen),
            20 => Some(KeyCode::KeyA),
            21 => Some(KeyCode::KeyB),
            22 => Some(KeyCode::KeyC),
            23 => Some(KeyCode::KeyD),
            24 => Some(KeyCode::KeyE),
            25 => Some(KeyCode::KeyF),
            26 => Some(KeyCode::KeyG),
            27 => Some(KeyCode::KeyH),
            28 => Some(KeyCode::KeyI),
            29 => Some(KeyCode::KeyJ),
            30 => Some(KeyCode::KeyK),
            31 => Some(KeyCode::KeyL),
            32 => Some(KeyCode::KeyM),
            33 => Some(KeyCode::KeyN),
            34 => Some(KeyCode::KeyO),
            35 => Some(KeyCode::KeyP),
            36 => Some(KeyCode::KeyQ),
            37 => Some(KeyCode::KeyR),
            38 => Some(KeyCode::KeyS),
            39 => Some(KeyCode::KeyT),
            40 => Some(KeyCode::KeyU),
            41 => Some(KeyCode::KeyV),
            42 => Some(KeyCode::KeyW),
            43 => Some(KeyCode::KeyX),
            44 => Some(KeyCode::KeyY),
            45 => Some(KeyCode::KeyZ),
            46 => Some(KeyCode::Minus),
            47 => Some(KeyCode::Period),
            48 => Some(KeyCode::Quote),
            49 => Some(KeyCode::Semicolon),
            50 => Some(KeyCode::Slash),
            51 => Some(KeyCode::AltLeft),
            52 => Some(KeyCode::AltRight),
            53 => Some(KeyCode::Backspace),
            54 => Some(KeyCode::CapsLock),
            55 => Some(KeyCode::ContextMenu),
            56 => Some(KeyCode::ControlLeft),
            57 => Some(KeyCode::ControlRight),
            58 => Some(KeyCode::Enter),
            59 => Some(KeyCode::SuperLeft),
            60 => Some(KeyCode::SuperRight),
            61 => Some(KeyCode::ShiftLeft),
            62 => Some(KeyCode::ShiftRight),
            63 => Some(KeyCode::Space),
            64 => Some(KeyCode::Tab),
            65 => Some(KeyCode::Convert),
            66 => Some(KeyCode::KanaMode),
            67 => Some(KeyCode::Lang1),
            68 => Some(KeyCode::Lang2),
            69 => Some(KeyCode::Lang3),
            70 => Some(KeyCode::Lang4),
            71 => Some(KeyCode::Lang5),
            72 => Some(KeyCode::NonConvert),
            73 => Some(KeyCode::Delete),
            74 => Some(KeyCode::End),
            75 => Some(KeyCode::Help),
            76 => Some(KeyCode::Home),
            77 => Some(KeyCode::Insert),
            78 => Some(KeyCode::PageDown),
            79 => Some(KeyCode::PageUp),
            80 => Some(KeyCode::ArrowDown),
            81 => Some(KeyCode::ArrowLeft),
            82 => Some(KeyCode::ArrowRight),
            83 => Some(KeyCode::ArrowUp),
            84 => Some(KeyCode::NumLock),
            85 => Some(KeyCode::Numpad0),
            86 => Some(KeyCode::Numpad1),
            87 => Some(KeyCode::Numpad2),
            88 => Some(KeyCode::Numpad3),
            89 => Some(KeyCode::Numpad4),
            90 => Some(KeyCode::Numpad5),
            91 => Some(KeyCode::Numpad6),
            92 => Some(KeyCode::Numpad7),
            93 => Some(KeyCode::Numpad8),
            94 => Some(KeyCode::Numpad9),
            95 => Some(KeyCode::NumpadAdd),
            96 => Some(KeyCode::NumpadBackspace),
            97 => Some(KeyCode::NumpadClear),
            98 => Some(KeyCode::NumpadClearEntry),
            99 => Some(KeyCode::NumpadComma),
            100 => Some(KeyCode::NumpadDecimal),
            101 => Some(KeyCode::NumpadDivide),
            102 => Some(KeyCode::NumpadEnter),
            103 => Some(KeyCode::NumpadEqual),
            104 => Some(KeyCode::NumpadHash),
            105 => Some(KeyCode::NumpadMemoryAdd),
            106 => Some(KeyCode::NumpadMemoryClear),
            107 => Some(KeyCode::NumpadMemoryRecall),
            108 => Some(KeyCode::NumpadMemoryStore),
            109 => Some(KeyCode::NumpadMemorySubtract),
            110 => Some(KeyCode::NumpadMultiply),
            111 => Some(KeyCode::NumpadParenLeft),
            112 => Some(KeyCode::NumpadParenRight),
            113 => Some(KeyCode::NumpadStar),
            114 => Some(KeyCode::NumpadSubtract),
            115 => Some(KeyCode::Escape),
            116 => Some(KeyCode::Fn),
            117 => Some(KeyCode::FnLock),
            118 => Some(KeyCode::PrintScreen),
            119 => Some(KeyCode::ScrollLock),
            120 => Some(KeyCode::Pause),
            121 => Some(KeyCode::BrowserBack),
            122 => Some(KeyCode::BrowserFavorites),
            123 => Some(KeyCode::BrowserForward),
            124 => Some(KeyCode::BrowserHome),
            125 => Some(KeyCode::BrowserRefresh),
            126 => Some(KeyCode::BrowserSearch),
            127 => Some(KeyCode::BrowserStop),
            128 => Some(KeyCode::Eject),
            129 => Some(KeyCode::LaunchApp1),
            130 => Some(KeyCode::LaunchApp2),
            131 => Some(KeyCode::LaunchMail),
            132 => Some(KeyCode::MediaPlayPause),
            133 => Some(KeyCode::MediaSelect),
            134 => Some(KeyCode::MediaStop),
            135 => Some(KeyCode::MediaTrackNext),
            136 => Some(KeyCode::MediaTrackPrevious),
            137 => Some(KeyCode::Power),
            138 => Some(KeyCode::Sleep),
            139 => Some(KeyCode::AudioVolumeDown),
            140 => Some(KeyCode::AudioVolumeMute),
            141 => Some(KeyCode::AudioVolumeUp),
            142 => Some(KeyCode::WakeUp),
            143 => Some(KeyCode::Meta),
            144 => Some(KeyCode::Hyper),
            145 => Some(KeyCode::Turbo),
            146 => Some(KeyCode::Abort),
            147 => Some(KeyCode::Resume),
            148 => Some(KeyCode::Suspend),
            149 => Some(KeyCode::Again),
            150 => Some(KeyCode::Copy),
            151 => Some(KeyCode::Cut),
            152 => Some(KeyCode::Find),
            153 => Some(KeyCode::Open),
            154 => Some(KeyCode::Paste),
            155 => Some(KeyCode::Props),
            156 => Some(KeyCode::Select),
            157 => Some(KeyCode::Undo),
            158 => Some(KeyCode::Hiragana),
            159 => Some(KeyCode::Katakana),
            160 => Some(KeyCode::F1),
            161 => Some(KeyCode::F2),
            162 => Some(KeyCode::F3),
            163 => Some(KeyCode::F4),
            164 => Some(KeyCode::F5),
            165 => Some(KeyCode::F6),
            166 => Some(KeyCode::F7),
            167 => Some(KeyCode::F8),
            168 => Some(KeyCode::F9),
            169 => Some(KeyCode::F10),
            170 => Some(KeyCode::F11),
            171 => Some(KeyCode::F12),
            172 => Some(KeyCode::F13),
            173 => Some(KeyCode::F14),
            174 => Some(KeyCode::F15),
            175 => Some(KeyCode::F16),
            176 => Some(KeyCode::F17),
            177 => Some(KeyCode::F18),
            178 => Some(KeyCode::F19),
            179 => Some(KeyCode::F20),
            180 => Some(KeyCode::F21),
            181 => Some(KeyCode::F22),
            182 => Some(KeyCode::F23),
            183 => Some(KeyCode::F24),
            184 => Some(KeyCode::F25),
            185 => Some(KeyCode::F26),
            186 => Some(KeyCode::F27),
            187 => Some(KeyCode::F28),
            188 => Some(KeyCode::F29),
            189 => Some(KeyCode::F30),
            190 => Some(KeyCode::F31),
            191 => Some(KeyCode::F32),
            192 => Some(KeyCode::F33),
            193 => Some(KeyCode::F34),
            194 => Some(KeyCode::F35),
            _ => None,
        }
    }

    /// Computes [`KeyCode::at`].
    pub fn from_ordinal(ordinal: u64) -> (key: Option<KeyCode>)
        ensures
            key == KeyCode::at(ordinal),
            key is Some <==> 1 <= ordinal <= NAMED_KEYS,
    {
        match ordinal {
            1 => Some(KeyCode::Backquote),
            2 => Some(KeyCode::Backslash),
            3 => Some(KeyCode::BracketLeft),
            4 => Some(KeyCode::BracketRight),
            5 => Some(KeyCode::Comma),
            6 => Some(KeyCode::Digit0),
            7 => Some(KeyCode::Digit1),
            8 => Some(KeyCode::Digit2),
            9 => Some(KeyCode::Digit3),
            10 => Some(KeyCode::Digit4),
            11 => Some(KeyCode::Digit5),
            12 => Some(KeyCode::Digit6),
            13 => Some(KeyCode::Digit7),
            14 => Some(KeyCode::Digit8),
            15 => Some(KeyCode::Digit9),
            16 => Some(KeyCode::Equal),
            17 => Some(KeyCode::IntlBackslash),
            18 => Some(KeyCode::IntlRo),
            19 => Some(KeyCode::IntlYen),
            20 => Some(KeyCode::KeyA),
            21 => Some(KeyCode::KeyB),
            22 => Some(KeyCode::KeyC),
            23 => Some(KeyCode::KeyD),
            24 => Some(KeyCode::KeyE),
            25 => Some(KeyCode::KeyF),
            26 => Some(KeyCode::KeyG),
            27 => Some(KeyCode::KeyH),
            28 => Some(KeyCode::KeyI),
            29 => Some(KeyCode::KeyJ),
            30 => Some(KeyCode::KeyK),
            31 => Some(KeyCode::KeyL),
            32 => Some(KeyCode::KeyM),
            33 => Some(KeyCode::KeyN),
            34 => Some(KeyCode::KeyO),
            35 => Some(KeyCode::KeyP),
            36 => Some(KeyCode::KeyQ),
            37 => Some(KeyCode::KeyR),
            38 => Some(KeyCode::KeyS),
            39 => Some(KeyCode::KeyT),
            40 => Some(KeyCode::KeyU),
            41 => Some(KeyCode::KeyV),
            42 => Some(KeyCode::KeyW),
            43 => Some(KeyCode::KeyX),
            44 => Some(KeyCode::KeyY),
            45 => Some(KeyCode::KeyZ),
            46 => Some(KeyCode::Minus),
            47 => Some(KeyCode::Period),
            48 => Some(KeyCode::Quote),
            49 => Some(KeyCode::Semicolon),
            50 => Some(KeyCode::Slash),
            51 => Some(KeyCode::AltLeft),
            52 => Some(KeyCode::AltRight),
            53 => Some(KeyCode::Backspace),
            54 => Some(KeyCode::CapsLock),
            55 => Some(KeyCode::ContextMenu),
            56 => Some(KeyCode::ControlLeft),
            57 => Some(KeyCode::ControlRight),
            58 => Some(KeyCode::Enter),
            59 => Some(KeyCode::SuperLeft),
            60 => Some(KeyCode::SuperRight),
            61 => Some(KeyCode::ShiftLeft),
            62 => Some(KeyCode::ShiftRight),
            63 => Some(KeyCode::Space),
            64 => Some(KeyCode::Tab),
            65 => Some(KeyCode::Convert),
            66 => Some(KeyCode::KanaMode),
            67 => Some(KeyCode::Lang1),
            68 => Some(KeyCode::Lang2),
            69 => Some(KeyCode::Lang3),
            70 => Some(KeyCode::Lang4),
            71 => Some(KeyCode::Lang5),
            72 => Some(KeyCode::NonConvert),
            73 => Some(KeyCode::Delete),
            74 => Some(KeyCode::End),
            75 => Some(KeyCode::Help),
            76 => Some(KeyCode::Home),
            77 => Some(KeyCode::Insert),
            78 => Some(KeyCode::PageDown),
            79 => Some(KeyCode::PageUp),
            80 => Some(KeyCode::ArrowDown),
            81 => Some(KeyCode::ArrowLeft),
            82 => Some(KeyCode::ArrowRight),
            83 => Some(KeyCode::ArrowUp),
            84 => Some(KeyCode::NumLock),
            85 => Some(KeyCode::Numpad0),
            86 => Some(KeyCode::Numpad1),
            87 => Some(KeyCode::Numpad2),
            88 => Some(KeyCode::Numpad3),
            89 => Some(KeyCode::Numpad4),
            90 => Some(KeyCode::Numpad5),
            91 => Some(KeyCode::Numpad6),
            92 => Some(KeyCode::Numpad7),
            93 => Some(KeyCode::Numpad8),
            94 => Some(KeyCode::Numpad9),
            95 => Some(KeyCode::NumpadAdd),
            96 => Some(KeyCode::NumpadBackspace),
            97 => Some(KeyCode::NumpadClear),
            98 => Some(KeyCode::NumpadClearEntry),
            99 => Some(KeyCode::NumpadComma),
            100 => Some(KeyCode::NumpadDecimal),
            101 => Some(KeyCode::NumpadDivide),
            102 => Some(KeyCode::NumpadEnter),
            103 => Some(KeyCode::NumpadEqual),
            104 => Some(KeyCode::NumpadHash),
            105 => Some(KeyCode::NumpadMemoryAdd),
            106 => Some(KeyCode::NumpadMemoryClear),
            107 => Some(KeyCode::NumpadMemoryRecall),
            108 => Some(KeyCode::NumpadMemoryStore),
            109 => Some(KeyCode::NumpadMemorySubtract),
            110 => Some(KeyCode::NumpadMultiply),
            111 => Some(KeyCode::NumpadParenLeft),
            112 => Some(KeyCode::NumpadParenRight),
            113 => Some(KeyCode::NumpadStar),
            114 => Some(KeyCode::NumpadSubtract),
            115 => Some(KeyCode::Escape),
            116 => Some(KeyCode::Fn),
            117 => Some(KeyCode::FnLock),
            118 => Some(KeyCode::PrintScreen),
            119 => Some(KeyCode::ScrollLock),
            120 => Some(KeyCode::Pause),
            121 => Some(KeyCode::BrowserBack),
            122 => Some(KeyCode::BrowserFavorites),
            123 => Some(KeyCode::BrowserForward),
            124 => Some(KeyCode::BrowserHome),
            125 => Some(KeyCode::BrowserRefresh),
            126 => Some(KeyCode::BrowserSearch),
            127 => Some(KeyCode::BrowserStop),
            128 => Some(KeyCode::Eject),
            129 => Some(KeyCode::LaunchApp1),
            130 => Some(KeyCode::LaunchApp2),
            131 => Some(KeyCode::LaunchMail),
            132 => Some(KeyCode::MediaPlayPause),
            133 => Some(KeyCode::MediaSelect),
            134 => Some(KeyCode::MediaStop),
            135 => Some(KeyCode::MediaTrackNext),
            136 => Some(KeyCode::MediaTrackPrevious),
            137 => Some(KeyCode::Power),
            138 => Some(KeyCode::Sleep),
            139 => Some(KeyCode::AudioVolumeDown),
            140 => Some(KeyCode::AudioVolumeMute),
            141 => Some(KeyCode::AudioVolumeUp),
            142 => Some(KeyCode::WakeUp),
            143 => Some(KeyCode::Meta),
            144 => Some(KeyCode::Hyper),
            145 => Some(KeyCode::Turbo),
            146 => Some(KeyCode::Abort),
            147 => Some(KeyCode::Resume),
            148 => Some(KeyCode::Suspend),
            149 => Some(KeyCode::Again),
            150 => Some(KeyCode::Copy),
            151 => Some(KeyCode::Cut),
            152 => Some(KeyCode::Find),
            153 => Some(KeyCode::Open),
            154 => Some(KeyCode::Paste),
            155 => Some(KeyCode::Props),
            156 => Some(KeyCode::Select),
            157 => Some(KeyCode::Undo),
            158 => Some(KeyCode::Hiragana),
            159 => Some(KeyCode::Katakana),
            160 => Some(KeyCode::F1),
            161 => Some(KeyCode::F2),
            162 => Some(KeyCode::F3),
            163 => Some(KeyCode::F4),
            164 => Some(KeyCode::F5),
            165 => Some(KeyCode::F6),
            166 => Some(KeyCode::F7),
            167 => Some(KeyCode::F8),
            168 => Some(KeyCode::F9),
            169 => Some(KeyCode::F10),
            170 => Some(KeyCode::F11),
            171 => Some(KeyCode::F12),
            172 => Some(KeyCode::F13),
            173 => Some(KeyCode::F14),
            174 => Some(KeyCode::F15),
            175 => Some(KeyCode::F16),
            176 => Some(KeyCode::F17),
            177 => Some(KeyCode::F18),
            178 => Some(KeyCode::F19),
            179 => Some(KeyCode::F20),
            180 => Some(KeyCode::F21),
            181 => Some(KeyCode::F22),
            182 => Some(KeyCode::F23),
            183 => Some(KeyCode::F24),
            184 => Some(KeyCode::F25),
            185 => Some(KeyCode::F26),
            186 => Some(KeyCode::F27),
            187 => Some(KeyCode::F28),
            188 => Some(KeyCode::F29),
            189 => Some(KeyCode::F30),
            190 => Some(KeyCode::F31),
            191 => Some(KeyCode::F32),
            192 => Some(KeyCode::F33),
            193 => Some(KeyCode::F34),
            194 => Some(KeyCode::F35),
            _ => None,
        }
    }

    /// The number that stands for this key where keys are compared: that of
    /// its native code for a key without a name, and `FIRST_NAMED` plus its
    /// ordinal for a named one.
    pub open spec fn code(self) -> u64 {
        match self {
            KeyCode::Unidentified(native) => native.code(),
            _ => (FIRST_NAMED + self.ordinal()) as u64,
        }
    }

    /// Computes [`KeyCode::code`].
    pub fn to_code(&self) -> (code: u64)
        ensures
            code == self.code(),
            code <= FIRST_NAMED + NAMED_KEYS,
    {
        match self {
            KeyCode::Unidentified(native) => native.to_code(),
            _ => FIRST_NAMED + self.to_ordinal(),
        }
    }

    /// The name of the key: that of its variant.
    pub open spec fn name(self) -> Seq<char> {
        match self {
            KeyCode::Unidentified(_) => "Unidentified"@,
            KeyCode::Backquote => "Backquote"@,
            KeyCode::Backslash => "Backslash"@,
            KeyCode::BracketLeft => "BracketLeft"@,
            KeyCode::BracketRight => "BracketRight"@,
            KeyCode::Comma => "Comma"@,
            KeyCode::Digit0 => "Digit0"@,
            KeyCode::Digit1 => "Digit1"@,
            KeyCode::Digit2 => "Digit2"@,
            KeyCode::Digit3 => "Digit3"@,
            KeyCode::Digit4 => "Digit4"@,
            KeyCode::Digit5 => "Digit5"@,
            KeyCode::Digit6 => "Digit6"@,
            KeyCode::Digit7 => "Digit7"@,
            KeyCode::Digit8 => "Digit8"@,
            KeyCode::Digit9 => "Digit9"@,
            KeyCode::Equal => "Equal"@,
            KeyCode::IntlBackslash => "IntlBackslash"@,
            KeyCode::IntlRo => "IntlRo"@,
            KeyCode::IntlYen => "IntlYen"@,
            KeyCode::KeyA => "KeyA"@,
            KeyCode::KeyB => "KeyB"@,
            KeyCode::KeyC => "KeyC"@,
            KeyCode::KeyD => "KeyD"@,
            KeyCode::KeyE => "KeyE"@,
            KeyCode::KeyF => "KeyF"@,
            KeyCode::KeyG => "KeyG"@,
            KeyCode::KeyH => "KeyH"@,
            KeyCode::KeyI => "KeyI"@,
            KeyCode::KeyJ => "KeyJ"@,
            KeyCode::KeyK => "KeyK"@,
            KeyCode::KeyL => "KeyL"@,
            KeyCode::KeyM => "KeyM"@,
            KeyCode::KeyN => "KeyN"@,
            KeyCode::KeyO => "KeyO"@,
            KeyCode::KeyP => "KeyP"@,
            KeyCode::KeyQ => "KeyQ"@,
            KeyCode::KeyR => "KeyR"@,
            KeyCode::KeyS => "KeyS"@,
            KeyCode::KeyT => "KeyT"@,
            KeyCode::KeyU => "KeyU"@,
            KeyCode::KeyV => "KeyV"@,
            KeyCode::KeyW => "KeyW"@,
            KeyCode::KeyX => "KeyX"@,
            KeyCode::KeyY => "KeyY"@,
            KeyCode::KeyZ => "KeyZ"@,
            KeyCode::Minus => "Minus"@,
            KeyCode::Period => "Period"@,
            KeyCode::Quote => "Quote"@,
            KeyCode::Semicolon => "Semicolon"@,
            KeyCode::Slash => "Slash"@,
            KeyCode::AltLeft => "AltLeft"@,
            KeyCode::AltRight => "AltRight"@,
            KeyCode::Backspace => "Backspace"@,
            KeyCode::CapsLock => "CapsLock"@,
            KeyCode::ContextMenu => "ContextMenu"@,
            KeyCode::ControlLeft => "ControlLeft"@,
            KeyCode::ControlRight => "ControlRight"@,
            KeyCode::Enter => "Enter"@,
            KeyCode::SuperLeft => "SuperLeft"@,
            KeyCode::SuperRight => "SuperRight"@,
            KeyCode::ShiftLeft => "ShiftLeft"@,
            KeyCode::ShiftRight => "ShiftRight"@,
            KeyCode::Space => "Space"@,
            KeyCode::Tab => "Tab"@,
            KeyCode::Convert => "Convert"@,
            KeyCode::KanaMode => "KanaMode"@,
            KeyCode::Lang1 => "Lang1"@,
            KeyCode::Lang2 => "Lang2"@,
            KeyCode::Lang3 => "Lang3"@,
            KeyCode::Lang4 => "Lang4"@,
            KeyCode::Lang5 => "Lang5"@,
            KeyCode::NonConvert => "NonConvert"@,
            KeyCode::Delete => "Delete"@,
            KeyCode::End => "End"@,
            KeyCode::Help => "Help"@,
            KeyCode::Home => "Home"@,
            KeyCode::Insert => "Insert"@,
            KeyCode::PageDown => "PageDown"@,
            KeyCode::PageUp => "PageUp"@,
            KeyCode::ArrowDown => "ArrowDown"@,
            KeyCode::ArrowLeft => "ArrowLeft"@,
            KeyCode::ArrowRight => "ArrowRight"@,
            KeyCode::ArrowUp => "ArrowUp"@,
            KeyCode::NumLock => "NumLock"@,
            KeyCode::Numpad0 => "Numpad0"@,
            KeyCode::Numpad1 => "Numpad1"@,
            KeyCode::Numpad2 => "Numpad2"@,
            KeyCode::Numpad3 => "Numpad3"@,
            KeyCode::Numpad4 => "Numpad4"@,
            KeyCode::Numpad5 => "Numpad5"@,
            KeyCode::Numpad6 => "Numpad6"@,
            KeyCode::Numpad7 => "Numpad7"@,
            KeyCode::Numpad8 => "Numpad8"@,
            KeyCode::Numpad9 => "Numpad9"@,
            KeyCode::NumpadAdd => "NumpadAdd"@,
            KeyCode::NumpadBackspace => "NumpadBackspace"@,
            KeyCode::NumpadClear => "NumpadClear"@,
            KeyCode::NumpadClearEntry => "NumpadClearEntry"@,
            KeyCode::NumpadComma => "NumpadComma"@,
            KeyCode::NumpadDecimal => "NumpadDecimal"@,
            KeyCode::NumpadDivide => "NumpadDivide"@,
            KeyCode::NumpadEnter => "NumpadEnter"@,
            KeyCode::NumpadEqual => "NumpadEqual"@,
            KeyCode::NumpadHash => "NumpadHash"@,
            KeyCode::NumpadMemoryAdd => "NumpadMemoryAdd"@,
            KeyCode::NumpadMemoryClear => "NumpadMemoryClear"@,
            KeyCode::NumpadMemoryRecall => "NumpadMemoryRecall"@,
            KeyCode::NumpadMemoryStore => "NumpadMemoryStore"@,
            KeyCode::NumpadMemorySubtract => "NumpadMemorySubtract"@,
            KeyCode::NumpadMultiply => "NumpadMultiply"@,
            KeyCode::NumpadParenLeft => "NumpadParenLeft"@,
            KeyCode::NumpadParenRight => "NumpadParenRight"@,
            KeyCode::NumpadStar => "NumpadStar"@,
            KeyCode::NumpadSubtract => "NumpadSubtract"@,
            KeyCode::Escape => "Escape"@,
            KeyCode::Fn => "Fn"@,
            KeyCode::FnLock => "FnLock"@,
            KeyCode::PrintScreen => "PrintScreen"@,
            KeyCode::ScrollLock => "ScrollLock"@,
            KeyCode::Pause => "Pause"@,
            KeyCode::BrowserBack => "BrowserBack"@,
            KeyCode::BrowserFavorites => "BrowserFavorites"@,
            KeyCode::BrowserForward => "BrowserForward"@,
            KeyCode::BrowserHome => "BrowserHome"@,
            KeyCode::BrowserRefresh => "BrowserRefresh"@,
            KeyCode::BrowserSearch => "BrowserSearch"@,
            KeyCode::BrowserStop => "BrowserStop"@,
            KeyCode::Eject => "Eject"@,
            KeyCode::LaunchApp1 => "LaunchApp1"@,
            KeyCode::LaunchApp2 => "LaunchApp2"@,
            KeyCode::LaunchMail => "LaunchMail"@,
            KeyCode::MediaPlayPause => "MediaPlayPause"@,
            KeyCode::MediaSelect => "MediaSelect"@,
            KeyCode::MediaStop => "MediaStop"@,
            KeyCode::MediaTrackNext => "MediaTrackNext"@,
            KeyCode::MediaTrackPrevious => "MediaTrackPrevious"@,
            KeyCode::Power => "Power"@,
            KeyCode::Sleep => "Sleep"@,
            KeyCode::AudioVolumeDown => "AudioVolumeDown"@,
            KeyCode::AudioVolumeMute => "AudioVolumeMute"@,
            KeyCode::AudioVolumeUp => "AudioVolumeUp"@,
            KeyCode::WakeUp => "WakeUp"@,
            KeyCode::Meta => "Meta"@,
            KeyCode::Hyper => "Hyper"@,
            KeyCode::Turbo => "Turbo"@,
            KeyCode::Abort => "Abort"@,
            KeyCode::Resume => "Resume"@,
            KeyCode::Suspend => "Suspend"@,
            KeyCode::Again => "Again"@,
            KeyCode::Copy => "Copy"@,
            KeyCode::Cut => "Cut"@,
            KeyCode::Find => "Find"@,
            KeyCode::Open => "Open"@,
            KeyCode::Paste => "Paste"@,
            KeyCode::Props => "Props"@,
            KeyCode::Select => "Select"@,
            KeyCode::Undo => "Undo"@,
            KeyCode::Hiragana => "Hiragana"@,
            KeyCode::Katakana => "Katakana"@,
            KeyCode::F1 => "F1"@,
            KeyCode::F2 => "F2"@,
            KeyCode::F3 => "F3"@,
            KeyCode::F4 => "F4"@,
            KeyCode::F5 => "F5"@,
            KeyCode::F6 => "F6"@,
            KeyCode::F7 => "F7"@,
            KeyCode::F8 => "F8"@,
            KeyCode::F9 => "F9"@,
            KeyCode::F10 => "F10"@,
            KeyCode::F11 => "F11"@,
            KeyCode::F12 => "F12"@,
            KeyCode::F13 => "F13"@,
            KeyCode::F14 => "F14"@,
            KeyCode::F15 => "F15"@,
            KeyCode::F16 => "F16"@,
            KeyCode::F17 => "F17"@,
            KeyCode::F18 => "F18"@,
            KeyCode::F19 => "F19"@,
            KeyCode::F20 => "F20"@,
            KeyCode::F21 => "F21"@,
            KeyCode::F22 => "F22"@,
            KeyCode::F23 => "F23"@,
            KeyCode::F24 => "F24"@,
            KeyCode::F25 => "F25"@,
            KeyCode::F26 => "F26"@,
            KeyCode::F27 => "F27"@,
            KeyCode::F28 => "F28"@,
            KeyCode::F29 => "F29"@,
            KeyCode::F30 => "F30"@,
            KeyCode::F31 => "F31"@,
            KeyCode::F32 => "F32"@,
            KeyCode::F33 => "F33"@,
            KeyCode::F34 => "F34"@,
            KeyCode::F35 => "F35"@,
        }
    }

    /// Computes [`KeyCode::name`].
    pub fn variant_name(&self) -> (name: &'static str)
        ensures
            name@ == self.name(),
    {
        match self {
            KeyCode::Unidentified(_) => "Unidentified",
            KeyCode::Backquote => "Backquote",
            KeyCode::Backslash => "Backslash",
            KeyCode::BracketLeft => "BracketLeft",
            KeyCode::BracketRight => "BracketRight",
            KeyCode::Comma => "Comma",
            KeyCode::Digit0 => "Digit0",
            KeyCode::Digit1 => "Digit1",
            KeyCode::Digit2 => "Digit2",
            KeyCode::Digit3 => "Digit3",
            KeyCode::Digit4 => "Digit4",
            KeyCode::Digit5 => "Digit5",
            KeyCode::Digit6 => "Digit6",
            KeyCode::Digit7 => "Digit7",
            KeyCode::Digit8 => "Digit8",
            KeyCode::Digit9 => "Digit9",
            KeyCode::Equal => "Equal",
            KeyCode::IntlBackslash => "IntlBackslash",
            KeyCode::IntlRo => "IntlRo",
            KeyCode::IntlYen => "IntlYen",
            KeyCode::KeyA => "KeyA",
            KeyCode::KeyB => "KeyB",
            KeyCode::KeyC => "KeyC",
            KeyCode::KeyD => "KeyD",
            KeyCode::KeyE => "KeyE",
            KeyCode::KeyF => "KeyF",
            KeyCode::KeyG => "KeyG",
            KeyCode::KeyH => "KeyH",
            KeyCode::KeyI => "KeyI",
            KeyCode::KeyJ => "KeyJ",
            KeyCode::KeyK => "KeyK",
            KeyCode::KeyL => "KeyL",
            KeyCode::KeyM => "KeyM",
            KeyCode::KeyN => "KeyN",
            KeyCode::KeyO => "KeyO",
            KeyCode::KeyP => "KeyP",
            KeyCode::KeyQ => "KeyQ",
            KeyCode::KeyR => "KeyR",
            KeyCode::KeyS => "KeyS",
            KeyCode::KeyT => "KeyT",
            KeyCode::KeyU => "KeyU",
            KeyCode::KeyV => "KeyV",
            KeyCode::KeyW => "KeyW",
            KeyCode::KeyX => "KeyX",
            KeyCode::KeyY => "KeyY",
            KeyCode::KeyZ => "KeyZ",
            KeyCode::Minus => "Minus",
            KeyCode::Period => "Period",
            KeyCode::Quote => "Quote",
            KeyCode::Semicolon => "Semicolon",
            KeyCode::Slash => "Slash",
            KeyCode::AltLeft => "AltLeft",
            KeyCode::AltRight => "AltRight",
            KeyCode::Backspace => "Backspace",
            KeyCode::CapsLock => "CapsLock",
            KeyCode::ContextMenu => "ContextMenu",
            KeyCode::ControlLeft => "ControlLeft",
            KeyCode::ControlRight => "ControlRight",
            KeyCode::Enter => "Enter",
            KeyCode::SuperLeft => "SuperLeft",
            KeyCode::SuperRight => "SuperRight",
            KeyCode::ShiftLeft => "ShiftLeft",
            KeyCode::ShiftRight => "ShiftRight",
            KeyCode::Space => "Space",
            KeyCode::Tab => "Tab",
            KeyCode::Convert => "Convert",
            KeyCode::KanaMode => "KanaMode",
            KeyCode::Lang1 => "Lang1",
            KeyCode::Lang2 => "Lang2",
            KeyCode::Lang3 => "Lang3",
            KeyCode::Lang4 => "Lang4",
            KeyCode::Lang5 => "Lang5",
            KeyCode::NonConvert => "NonConvert",
            KeyCode::Delete => "Delete",
            KeyCode::End => "End",
            KeyCode::Help => "Help",
            KeyCode::Home => "Home",
            KeyCode::Insert => "Insert",
            KeyCode::PageDown => "PageDown",
            KeyCode::PageUp => "PageUp",
            KeyCode::ArrowDown => "ArrowDown",
            KeyCode::ArrowLeft => "ArrowLeft",
            KeyCode::ArrowRight => "ArrowRight",
            KeyCode::ArrowUp => "ArrowUp",
            KeyCode::NumLock => "NumLock",
            KeyCode::Numpad0 => "Numpad0",
            KeyCode::Numpad1 => "Numpad1",
            KeyCode::Numpad2 => "Numpad2",
            KeyCode::Numpad3 => "Numpad3",
            KeyCode::Numpad4 => "Numpad4",
            KeyCode::Numpad5 => "Numpad5",
            KeyCode::Numpad6 => "Numpad6",
            KeyCode::Numpad7 => "Numpad7",
            KeyCode::Numpad8 => "Numpad8",
            KeyCode::Numpad9 => "Numpad9",
            KeyCode::NumpadAdd => "NumpadAdd",
            KeyCode::NumpadBackspace => "NumpadBackspace",
            KeyCode::NumpadClear => "NumpadClear",
            KeyCode::NumpadClearEntry => "NumpadClearEntry",
            KeyCode::NumpadComma => "NumpadComma",
            KeyCode::NumpadDecimal => "NumpadDecimal",
            KeyCode::NumpadDivide => "NumpadDivide",
            KeyCode::NumpadEnter => "NumpadEnter",
            KeyCode::NumpadEqual => "NumpadEqual",
            KeyCode::NumpadHash => "NumpadHash",
            KeyCode::NumpadMemoryAdd => "NumpadMemoryAdd",
            KeyCode::NumpadMemoryClear => "NumpadMemoryClear",
            KeyCode::NumpadMemoryRecall => "NumpadMemoryRecall",
            KeyCode::NumpadMemoryStore => "NumpadMemoryStore",
            KeyCode::NumpadMemorySubtract => "NumpadMemorySubtract",
            KeyCode::NumpadMultiply => "NumpadMultiply",
            KeyCode::NumpadParenLeft => "NumpadParenLeft",
            KeyCode::NumpadParenRight => "NumpadParenRight",
            KeyCode::NumpadStar => "NumpadStar",
            KeyCode::NumpadSubtract => "NumpadSubtract",
            KeyCode::Escape => "Escape",
            KeyCode::Fn => "Fn",
            KeyCode::FnLock => "FnLock",
            KeyCode::PrintScreen => "PrintScreen",
            KeyCode::ScrollLock => "ScrollLock",
            KeyCode::Pause => "Pause",
            KeyCode::BrowserBack => "BrowserBack",
            KeyCode::BrowserFavorites => "BrowserFavorites",
            KeyCode::BrowserForward => "BrowserForward",
            KeyCode::BrowserHome => "BrowserHome",
            KeyCode::BrowserRefresh => "BrowserRefresh",
            KeyCode::BrowserSearch => "BrowserSearch",
            KeyCode::BrowserStop => "BrowserStop",
            KeyCode::Eject => "Eject",
            KeyCode::LaunchApp1 => "LaunchApp1",
            KeyCode::LaunchApp2 => "LaunchApp2",
            KeyCode::LaunchMail => "LaunchMail",
            KeyCode::MediaPlayPause => "MediaPlayPause",
            KeyCode::MediaSelect => "MediaSelect",
            KeyCode::MediaStop => "MediaStop",
            KeyCode::MediaTrackNext => "MediaTrackNext",
            KeyCode::MediaTrackPrevious => "MediaTrackPrevious",
            KeyCode::Power => "Power",
            KeyCode::Sleep => "Sleep",
            KeyCode::AudioVolumeDown => "AudioVolumeDown",
            KeyCode::AudioVolumeMute => "AudioVolumeMute",
            KeyCode::AudioVolumeUp => "AudioVolumeUp",
            KeyCode::WakeUp => "WakeUp",
            KeyCode::Meta => "Meta",
            KeyCode::Hyper => "Hyper",
            KeyCode::Turbo => "Turbo",
            KeyCode::Abort => "Abort",
            KeyCode::Resume => "Resume",
            KeyCode::Suspend => "Suspend",
            KeyCode::Again => "Again",
            KeyCode::Copy => "Copy",
            KeyCode::Cut => "Cut",
            KeyCode::Find => "Find",
            KeyCode::Open => "Open",
            KeyCode::Paste => "Paste",
            KeyCode::Props => "Props",
            KeyCode::Select => "Select",
            KeyCode::Undo => "Undo",
            KeyCode::Hiragana => "Hiragana",
            KeyCode::Katakana => "Katakana",
            KeyCode::F1 => "F1",
            KeyCode::F2 => "F2",
            KeyCode::F3 => "F3",
            KeyCode::F4 => "F4",
            KeyCode::F5 => "F5",
            KeyCode::F6 => "F6",
            KeyCode::F7 => "F7",
            KeyCode::F8 => "F8",
            KeyCode::F9 => "F9",
            KeyCode::F10 => "F10",
            KeyCode::F11 => "F11",
            KeyCode::F12 => "F12",
            KeyCode::F13 => "F13",
            KeyCode::F14 => "F14",
            KeyCode::F15 => "F15",
            KeyCode::F16 => "F16",
            KeyCode::F17 => "F17",
            KeyCode::F18 => "F18",
            KeyCode::F19 => "F19",
            KeyCode::F20 => "F20",
            KeyCode::F21 => "F21",
            KeyCode::F22 => "F22",
            KeyCode::F23 => "F23",
            KeyCode::F24 => "F24",
            KeyCode::F25 => "F25",
            KeyCode::F26 => "F26",
            KeyCode::F27 => "F27",
            KeyCode::F28 => "F28",
            KeyCode::F29 => "F29",
            KeyCode::F30 => "F30",
            KeyCode::F31 => "F31",
            KeyCode::F32 => "F32",
            KeyCode::F33 => "F33",
            KeyCode::F34 => "F34",
            KeyCode::F35 => "F35",
        }
    }

    /// The short name under which the key is shown: the sign it bears for a
    /// punctuation key, the bare letter or digit for a letter or digit key,
    /// and the name of the key for every other.
    pub open spec fn short(self) -> Seq<char> {
        match self {
            KeyCode::Unidentified(_) => "Unidentified"@,
            KeyCode::Backquote => "`"@,
            KeyCode::Backslash => "Backslash"@,
            KeyCode::BracketLeft => "["@,
            KeyCode::BracketRight => "]"@,
            KeyCode::Comma => "Comma"@,
            KeyCode::Digit0 => "0"@,
            KeyCode::Digit1 => "1"@,
            KeyCode::Digit2 => "2"@,
            KeyCode::Digit3 => "3"@,
            KeyCode::Digit4 => "4"@,
            KeyCode::Digit5 => "5"@,
            KeyCode::Digit6 => "6"@,
            KeyCode::Digit7 => "7"@,
            KeyCode::Digit8 => "8"@,
            KeyCode::Digit9 => "9"@,
            KeyCode::Equal => "="@,
            KeyCode::IntlBackslash => "IntlBackslash"@,
            KeyCode::IntlRo => "IntlRo"@,
            KeyCode::IntlYen => "IntlYen"@,
            KeyCode::KeyA => "A"@,
            KeyCode::KeyB => "B"@,
            KeyCode::KeyC => "C"@,
            KeyCode::KeyD => "D"@,
            KeyCode::KeyE => "E"@,
            KeyCode::KeyF => "F"@,
            KeyCode::KeyG => "G"@,
            KeyCode::KeyH => "H"@,
            KeyCode::KeyI => "I"@,
            KeyCode::KeyJ => "J"@,
            KeyCode::KeyK => "K"@,
            KeyCode::KeyL => "L"@,
            KeyCode::KeyM => "M"@,
            KeyCode::KeyN => "N"@,
            KeyCode::KeyO => "O"@,
            KeyCode::KeyP => "P"@,
            KeyCode::KeyQ => "Q"@,
            KeyCode::KeyR => "R"@,
            KeyCode::KeyS => "S"@,
            KeyCode::KeyT => "T"@,
            KeyCode::KeyU => "U"@,
            KeyCode::KeyV => "V"@,
            KeyCode::KeyW => "W"@,
            KeyCode::KeyX => "X"@,
            KeyCode::KeyY => "Y"@,
            KeyCode::KeyZ => "Z"@,
            KeyCode::Minus => "-"@,
            KeyCode::Period => "."@,
            KeyCode::Quote => "'"@,
            KeyCode::Semicolon => ";"@,
            KeyCode::Slash => "/"@,
            KeyCode::AltLeft => "AltLeft"@,
            KeyCode::AltRight => "AltRight"@,
            KeyCode::Backspace => "Backspace"@,
            KeyCode::CapsLock => "CapsLock"@,
            KeyCode::ContextMenu => "ContextMenu"@,
            KeyCode::ControlLeft => "ControlLeft"@,
            KeyCode::ControlRight => "ControlRight"@,
            KeyCode::Enter => "Enter"@,
            KeyCode::SuperLeft => "SuperLeft"@,
            KeyCode::SuperRight => "SuperRight"@,
            KeyCode::ShiftLeft => "ShiftLeft"@,
            KeyCode::ShiftRight => "ShiftRight"@,
            KeyCode::Space => "Space"@,
            KeyCode::Tab => "Tab"@,
            KeyCode::Convert => "Convert"@,
            KeyCode::KanaMode => "KanaMode"@,
            KeyCode::Lang1 => "Lang1"@,
            KeyCode::Lang2 => "Lang2"@,
            KeyCode::Lang3 => "Lang3"@,
            KeyCode::Lang4 => "Lang4"@,
            KeyCode::Lang5 => "Lang5"@,
            KeyCode::NonConvert => "NonConvert"@,
            KeyCode::Delete => "Delete"@,
            KeyCode::End => "End"@,
            KeyCode::Help => "Help"@,
            KeyCode::Home => "Home"@,
            KeyCode::Insert => "Insert"@,
            KeyCode::PageDown => "PageDown"@,
            KeyCode::PageUp => "PageUp"@,
            KeyCode::ArrowDown => "ArrowDown"@,
            KeyCode::ArrowLeft => "ArrowLeft"@,
            KeyCode::ArrowRight => "ArrowRight"@,
            KeyCode::ArrowUp => "ArrowUp"@,
            KeyCode::NumLock => "NumLock"@,
            KeyCode::Numpad0 => "Numpad0"@,
            KeyCode::Numpad1 => "Numpad1"@,
            KeyCode::Numpad2 => "Numpad2"@,
            KeyCode::Numpad3 => "Numpad3"@,
            KeyCode::Numpad4 => "Numpad4"@,
            KeyCode::Numpad5 => "Numpad5"@,
            KeyCode::Numpad6 => "Numpad6"@,
            KeyCode::Numpad7 => "Numpad7"@,
            KeyCode::Numpad8 => "Numpad8"@,
            KeyCode::Numpad9 => "Numpad9"@,
            KeyCode::NumpadAdd => "NumpadAdd"@,
            KeyCode::NumpadBackspace => "NumpadBackspace"@,
            KeyCode::NumpadClear => "NumpadClear"@,
            KeyCode::NumpadClearEntry => "NumpadClearEntry"@,
            KeyCode::NumpadComma => "NumpadComma"@,
            KeyCode::NumpadDecimal => "NumpadDecimal"@,
            KeyCode::NumpadDivide => "NumpadDivide"@,
            KeyCode::NumpadEnter => "NumpadEnter"@,
            KeyCode::NumpadEqual => "NumpadEqual"@,
            KeyCode::NumpadHash => "NumpadHash"@,
            KeyCode::NumpadMemoryAdd => "NumpadMemoryAdd"@,
            KeyCode::NumpadMemoryClear => "NumpadMemoryClear"@,
            KeyCode::NumpadMemoryRecall => "NumpadMemoryRecall"@,
            KeyCode::NumpadMemoryStore => "NumpadMemoryStore"@,
            KeyCode::NumpadMemorySubtract => "NumpadMemorySubtract"@,
            KeyCode::NumpadMultiply => "NumpadMultiply"@,
            KeyCode::NumpadParenLeft => "NumpadParenLeft"@,
            KeyCode::NumpadParenRight => "NumpadParenRight"@,
            KeyCode::NumpadStar => "NumpadStar"@,
            KeyCode::NumpadSubtract => "NumpadSubtract"@,
            KeyCode::Escape => "Escape"@,
            KeyCode::Fn => "Fn"@,
            KeyCode::FnLock => "FnLock"@,
            KeyCode::PrintScreen => "PrintScreen"@,
            KeyCode::ScrollLock => "ScrollLock"@,
            KeyCode::Pause => "Pause"@,
            KeyCode::BrowserBack => "BrowserBack"@,
            KeyCode::BrowserFavorites => "BrowserFavorites"@,
            KeyCode::BrowserForward => "BrowserForward"@,
            KeyCode::BrowserHome => "BrowserHome"@,
            KeyCode::BrowserRefresh => "BrowserRefresh"@,
            KeyCode::BrowserSearch => "BrowserSearch"@,
            KeyCode::BrowserStop => "BrowserStop"@,
            KeyCode::Eject => "Eject"@,
            KeyCode::LaunchApp1 => "LaunchApp1"@,
            KeyCode::LaunchApp2 => "LaunchApp2"@,
            KeyCode::LaunchMail => "LaunchMail"@,
            KeyCode::MediaPlayPause => "MediaPlayPause"@,
            KeyCode::MediaSelect => "MediaSelect"@,
            KeyCode::MediaStop => "MediaStop"@,
            KeyCode::MediaTrackNext => "MediaTrackNext"@,
            KeyCode::MediaTrackPrevious => "MediaTrackPrevious"@,
            KeyCode::Power => "Power"@,
            KeyCode::Sleep => "Sleep"@,
            KeyCode::AudioVolumeDown => "AudioVolumeDown"@,
            KeyCode::AudioVolumeMute => "AudioVolumeMute"@,
            KeyCode::AudioVolumeUp => "AudioVolumeUp"@,
            KeyCode::WakeUp => "WakeUp"@,
            KeyCode::Meta => "Meta"@,
            KeyCode::Hyper => "Hyper"@,
            KeyCode::Turbo => "Turbo"@,
            KeyCode::Abort => "Abort"@,
            KeyCode::Resume => "Resume"@,
            KeyCode::Suspend => "Suspend"@,
            KeyCode::Again => "Again"@,
            KeyCode::Copy => "Copy"@,
            KeyCode::Cut => "Cut"@,
            KeyCode::Find => "Find"@,
            KeyCode::Open => "Open"@,
            KeyCode::Paste => "Paste"@,
            KeyCode::Props => "Props"@,
            KeyCode::Select => "Select"@,
            KeyCode::Undo => "Undo"@,
            KeyCode::Hiragana => "Hiragana"@,
            KeyCode::Katakana => "Katakana"@,
            KeyCode::F1 => "F1"@,
            KeyCode::F2 => "F2"@,
            KeyCode::F3 => "F3"@,
            KeyCode::F4 => "F4"@,
            KeyCode::F5 => "F5"@,
            KeyCode::F6 => "F6"@,
            KeyCode::F7 => "F7"@,
            KeyCode::F8 => "F8"@,
            KeyCode::F9 => "F9"@,
            KeyCode::F10 => "F10"@,
            KeyCode::F11 => "F11"@,
            KeyCode::F12 => "F12"@,
            KeyCode::F13 => "F13"@,
            KeyCode::F14 => "F14"@,
            KeyCode::F15 => "F15"@,
            KeyCode::F16 => "F16"@,
            KeyCode::F17 => "F17"@,
            KeyCode::F18 => "F18"@,
            KeyCode::F19 => "F19"@,
            KeyCode::F20 => "F20"@,
            KeyCode::F21 => "F21"@,
            KeyCode::F22 => "F22"@,
            KeyCode::F23 => "F23"@,
            KeyCode::F24 => "F24"@,
            KeyCode::F25 => "F25"@,
            KeyCode::F26 => "F26"@,
            KeyCode::F27 => "F27"@,
            KeyCode::F28 => "F28"@,
            KeyCode::F29 => "F29"@,
            KeyCode::F30 => "F30"@,
            KeyCode::F31 => "F31"@,
            KeyCode::F32 => "F32"@,
            KeyCode::F33 => "F33"@,
            KeyCode::F34 => "F34"@,
            KeyCode::F35 => "F35"@,
        }
    }

    /// Computes [`KeyCode::short`].
    pub fn short_name(&self) -> (name: &'static str)
        ensures
            name@ == self.short(),
    {
        match self {
            KeyCode::Unidentified(_) => "Unidentified",
            KeyCode::Backquote => "`",
            KeyCode::Backslash => "Backslash",
            KeyCode::BracketLeft => "[",
            KeyCode::BracketRight => "]",
            KeyCode::Comma => "Comma",
            KeyCode::Digit0 => "0",
            KeyCode::Digit1 => "1",
            KeyCode::Digit2 => "2",
            KeyCode::Digit3 => "3",
            KeyCode::Digit4 => "4",
            KeyCode::Digit5 => "5",
            KeyCode::Digit6 => "6",
            KeyCode::Digit7 => "7",
            KeyCode::Digit8 => "8",
            KeyCode::Digit9 => "9",
            KeyCode::Equal => "=",
            KeyCode::IntlBackslash => "IntlBackslash",
            KeyCode::IntlRo => "IntlRo",
            KeyCode::IntlYen => "IntlYen",
            KeyCode::KeyA => "A",
            KeyCode::KeyB => "B",
            KeyCode::KeyC => "C",
            KeyCode::KeyD => "D",
            KeyCode::KeyE => "E",
            KeyCode::KeyF => "F",
            KeyCode::KeyG => "G",
            KeyCode::KeyH => "H",
            KeyCode::KeyI => "I",
            KeyCode::KeyJ => "J",
            KeyCode::KeyK => "K",
            KeyCode::KeyL => "L",
            KeyCode::KeyM => "M",
            KeyCode::KeyN => "N",
            KeyCode::KeyO => "O",
            KeyCode::KeyP => "P",
            KeyCode::KeyQ => "Q",
            KeyCode::KeyR => "R",
            KeyCode::KeyS => "S",
            KeyCode::KeyT => "T",
            KeyCode::KeyU => "U",
            KeyCode::KeyV => "V",
            KeyCode::KeyW => "W",
            KeyCode::KeyX => "X",
            KeyCode::KeyY => "Y",
            KeyCode::KeyZ => "Z",
            KeyCode::Minus => "-",
            KeyCode::Period => ".",
            KeyCode::Quote => "'",
            KeyCode::Semicolon => ";",
            KeyCode::Slash => "/",
            KeyCode::AltLeft => "AltLeft",
            KeyCode::AltRight => "AltRight",
            KeyCode::Backspace => "Backspace",
            KeyCode::CapsLock => "CapsLock",
            KeyCode::ContextMenu => "ContextMenu",
            KeyCode::ControlLeft => "ControlLeft",
            KeyCode::ControlRight => "ControlRight",
            KeyCode::Enter => "Enter",
            KeyCode::SuperLeft => "SuperLeft",
            KeyCode::SuperRight => "SuperRight",
            KeyCode::ShiftLeft => "ShiftLeft",
            KeyCode::ShiftRight => "ShiftRight",
            KeyCode::Space => "Space",
            KeyCode::Tab => "Tab",
            KeyCode::Convert => "Convert",
            KeyCode::KanaMode => "KanaMode",
            KeyCode::Lang1 => "Lang1",
            KeyCode::Lang2 => "Lang2",
            KeyCode::Lang3 => "Lang3",
            KeyCode::Lang4 => "Lang4",
            KeyCode::Lang5 => "Lang5",
            KeyCode::NonConvert => "NonConvert",
            KeyCode::Delete => "Delete",
            KeyCode::End => "End",
            KeyCode::Help => "Help",
            KeyCode::Home => "Home",
            KeyCode::Insert => "Insert",
            KeyCode::PageDown => "PageDown",
            KeyCode::PageUp => "PageUp",
            KeyCode::ArrowDown => "ArrowDown",
            KeyCode::ArrowLeft => "ArrowLeft",
            KeyCode::ArrowRight => "ArrowRight",
            KeyCode::ArrowUp => "ArrowUp",
            KeyCode::NumLock => "NumLock",
            KeyCode::Numpad0 => "Numpad0",
            KeyCode::Numpad1 => "Numpad1",
            KeyCode::Numpad2 => "Numpad2",
            KeyCode::Numpad3 => "Numpad3",
            KeyCode::Numpad4 => "Numpad4",
            KeyCode::Numpad5 => "Numpad5",
            KeyCode::Numpad6 => "Numpad6",
            KeyCode::Numpad7 => "Numpad7",
            KeyCode::Numpad8 => "Numpad8",
            KeyCode::Numpad9 => "Numpad9",
            KeyCode::NumpadAdd => "NumpadAdd",
            KeyCode::NumpadBackspace => "NumpadBackspace",
            KeyCode::NumpadClear => "NumpadClear",
            KeyCode::NumpadClearEntry => "NumpadClearEntry",
            KeyCode::NumpadComma => "NumpadComma",
            KeyCode::NumpadDecimal => "NumpadDecimal",
            KeyCode::NumpadDivide => "NumpadDivide",
            KeyCode::NumpadEnter => "NumpadEnter",
            KeyCode::NumpadEqual => "NumpadEqual",
            KeyCode::NumpadHash => "NumpadHash",
            KeyCode::NumpadMemoryAdd => "NumpadMemoryAdd",
            KeyCode::NumpadMemoryClear => "NumpadMemoryClear",
            KeyCode::NumpadMemoryRecall => "NumpadMemoryRecall",
            KeyCode::NumpadMemoryStore => "NumpadMemoryStore",
            KeyCode::NumpadMemorySubtract => "NumpadMemorySubtract",
            KeyCode::NumpadMultiply => "NumpadMultiply",
            KeyCode::NumpadParenLeft => "NumpadParenLeft",
            KeyCode::NumpadParenRight => "NumpadParenRight",
            KeyCode::NumpadStar => "NumpadStar",
            KeyCode::NumpadSubtract => "NumpadSubtract",
            KeyCode::Escape => "Escape",
            KeyCode::Fn => "Fn",
            KeyCode::FnLock => "FnLock",
            KeyCode::PrintScreen => "PrintScreen",
            KeyCode::ScrollLock => "ScrollLock",
            KeyCode::Pause => "Pause",
            KeyCode::BrowserBack => "BrowserBack",
            KeyCode::BrowserFavorites => "BrowserFavorites",
            KeyCode::BrowserForward => "BrowserForward",
            KeyCode::BrowserHome => "BrowserHome",
            KeyCode::BrowserRefresh => "BrowserRefresh",
            KeyCode::BrowserSearch => "BrowserSearch",
            KeyCode::BrowserStop => "BrowserStop",
            KeyCode::Eject => "Eject",
            KeyCode::LaunchApp1 => "LaunchApp1",
            KeyCode::LaunchApp2 => "LaunchApp2",
            KeyCode::LaunchMail => "LaunchMail",
            KeyCode::MediaPlayPause => "MediaPlayPause",
            KeyCode::MediaSelect => "MediaSelect",
            KeyCode::MediaStop => "MediaStop",
            KeyCode::MediaTrackNext => "MediaTrackNext",
            KeyCode::MediaTrackPrevious => "MediaTrackPrevious",
            KeyCode::Power => "Power",
            KeyCode::Sleep => "Sleep",
            KeyCode::AudioVolumeDown => "AudioVolumeDown",
            KeyCode::AudioVolumeMute => "AudioVolumeMute",
            KeyCode::AudioVolumeUp => "AudioVolumeUp",
            KeyCode::WakeUp => "WakeUp",
            KeyCode::Meta => "Meta",
            KeyCode::Hyper => "Hyper",
            KeyCode::Turbo => "Turbo",
            KeyCode::Abort => "Abort",
            KeyCode::Resume => "Resume",
            KeyCode::Suspend => "Suspend",
            KeyCode::Again => "Again",
            KeyCode::Copy => "Copy",
            KeyCode::Cut => "Cut",
            KeyCode::Find => "Find",
            KeyCode::Open => "Open",
            KeyCode::Paste => "Paste",
            KeyCode::Props => "Props",
            KeyCode::Select => "Select",
            KeyCode::Undo => "Undo",
            KeyCode::Hiragana => "Hiragana",
            KeyCode::Katakana => "Katakana",
            KeyCode::F1 => "F1",
            KeyCode::F2 => "F2",
            KeyCode::F3 => "F3",
            KeyCode::F4 => "F4",
            KeyCode::F5 => "F5",
            KeyCode::F6 => "F6",
            KeyCode::F7 => "F7",
            KeyCode::F8 => "F8",
            KeyCode::F9 => "F9",
            KeyCode::F10 => "F10",
            KeyCode::F11 => "F11",
            KeyCode::F12 => "F12",
            KeyCode::F13 => "F13",
            KeyCode::F14 => "F14",
            KeyCode::F15 => "F15",
            KeyCode::F16 => "F16",
            KeyCode::F17 => "F17",
            KeyCode::F18 => "F18",
            KeyCode::F19 => "F19",
            KeyCode::F20 => "F20",
            KeyCode::F21 => "F21",
            KeyCode::F22 => "F22",
            KeyCode::F23 => "F23",
            KeyCode::F24 => "F24",
            KeyCode::F25 => "F25",
            KeyCode::F26 => "F26",
            KeyCode::F27 => "F27",
            KeyCode::F28 => "F28",
            KeyCode::F29 => "F29",
            KeyCode::F30 => "F30",
            KeyCode::F31 => "F31",
            KeyCode::F32 => "F32",
            KeyCode::F33 => "F33",
            KeyCode::F34 => "F34",
            KeyCode::F35 => "F35",
        }
    }
}

/// A named key is found again from its ordinal.
pub proof fn lemma_ordinal_round_trip(key: KeyCode)
    requires
        !(key is Unidentified),
    ensures
        1 <= key.ordinal() <= NAMED_KEYS,
        KeyCode::at(key.ordinal()) == Some(key),
{
}

/// Two native codes with one number are one code.
pub proof fn lemma_native_code_injective(a: NativeKeyCode, b: NativeKeyCode)
    requires
        a.code() == b.code(),
    ensures
        a == b,
{
}

/// Two keys with one number are one key.
pub proof fn lemma_key_code_injective(a: KeyCode, b: KeyCode)
    requires
        a.code() == b.code(),
    ensures
        a == b,
{
    match (a, b) {
        (KeyCode::Unidentified(m), KeyCode::Unidentified(n)) => {
            lemma_native_code_injective(m, n);
        },
        (KeyCode::Unidentified(_), _) => {},
        (_, KeyCode::Unidentified(_)) => {},
        _ => {
            lemma_ordinal_round_trip(a);
            lemma_ordinal_round_trip(b);
        },
    }
}

} // verus!
