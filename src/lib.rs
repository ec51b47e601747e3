//! Hold-to-talk dictation: the recording lifecycle, the capture sink, hotkey
//! parsing and the transcription request and response rules.

pub mod error;
pub mod text;
pub mod hotkey;
pub mod settings;
pub mod capture;
pub mod provider;
pub mod lifecycle;
