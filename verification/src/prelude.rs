//! What most users need, in one import.
pub use crate::act::{Act, GamepadButton};
pub use crate::chord::{KeyChord, KeyChordQueue};
pub use crate::frame_time::FrameTime;
pub use crate::input_sequence::{InputSequence, InputSequenceBuilder};
pub use crate::key_code::KeyCode;
pub use crate::keyseq::{key, keyseq};
pub use crate::matcher::SequenceMatcher;
pub use crate::modifiers::Modifiers;
pub use crate::plugin::InputSequencePlugin;
pub use crate::time_limit::TimeLimit;
pub use std::time::Duration;
