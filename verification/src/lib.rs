//! Verified core of a push-to-talk dictation tool: the mouse-button state
//! machine, the recorder's phases, and the pure parts of running a local
//! whisper.cpp transcription.
pub mod text;
pub mod transcribe_local;
pub mod mouse_listener;
pub mod recorder;
pub mod control;
