//! Verified core of a touch-bar daemon: the UI state machine, its layouts,
//! animation timing, input decoding and the write-back rules for the
//! brightness and volume controls.

pub mod app;
pub mod backlight;
pub mod config;
pub mod display;
pub mod dynamic;
pub mod input;
pub mod media;
pub mod ui;
pub mod volume;
