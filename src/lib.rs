//! Emulation of a USB keyboard and mouse: the byte layout of keyboard, mouse and
//! LED-state reports, and the state machines that turn intents (hold, press,
//! release, move) into ordered sequences of reports.

/// Keyboard module
pub mod key;

/// Key translation: modifiers, special keys and character tables
mod translate;

/// Keyboard layouts, looked up by name
pub mod layout;

/// Mouse Module
pub mod mouse;
