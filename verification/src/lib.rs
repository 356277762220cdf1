//! Detects sequences of inputs, key chords or controller buttons, over
//! successive frames, and says which systems to run when one is completed
//! within its time limit.
pub mod act;
pub mod cache;
pub mod chord;
pub mod frame_time;
pub mod input_sequence;
pub mod key_code;
pub mod keyseq;
pub mod laws;
pub mod matcher;
pub mod model;
pub mod modifiers;
pub mod plugin;
pub mod prelude;
pub mod reading;
pub mod time_limit;
pub mod trie;

pub use act::{Act, GamepadButton};
pub use chord::{KeyChord, KeyChordQueue};
pub use frame_time::FrameTime;
pub use key_code::{KeyCode, NativeKeyCode};
pub use keyseq::{key, keyseq};
pub use matcher::SequenceMatcher;
pub use modifiers::Modifiers;
pub use plugin::InputSequencePlugin;
pub use time_limit::TimeLimit;
