//! VoiceForge: push-to-talk voice typing. This crate holds the verified core of the
//! application: configuration, the dictation controller, hotkey handling, text
//! injection planning, speech-provider plumbing and the small text utilities they share.

pub mod app;
pub mod audio;
pub mod config;
pub mod controller;
pub mod hotkey;
pub mod icon;
pub mod inject;
pub mod secrets;
pub mod stt;
pub mod text;
pub mod tray;
pub mod ui;
