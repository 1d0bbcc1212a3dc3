//! Audio playback and text-capture core of a text narration widget.
//!
//! The library holds the logic that can be stated over plain values: the PCM
//! codec and its container format, the playback session state machine driven
//! by a position tracker, the interpretation of what outside helpers
//! (selection readers, capture and text extraction tools) hand back, the
//! readable text of markdown, and the flag chosen for a language code.

pub mod pcm;
pub mod session;
pub mod capture;
pub mod flags;
pub mod markdown;
