//! Held-note tracking for a MIDI input adapter.
//!
//! The library keeps the set of note keys currently pressed on one MIDI
//! input connection, classifies each incoming raw message as Note-On,
//! Note-Off or other, and produces a snapshot of the held set whenever a
//! Note-On or Note-Off is handled. It also builds the user-facing device
//! list from transport-provided port names and models the single slot
//! that holds at most one open connection. All hardware discovery, driver
//! communication and UI delivery live outside the library.

pub mod connection;
pub mod devices;
pub mod tracker;
