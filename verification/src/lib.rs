//! Core of a terminal music-player application.
//!
//! The library holds everything with real state and invariants: the modal
//! state machine of the music player (browsing, now-playing, add/edit song,
//! delete confirmation), the playlist data model with its JSON persistence
//! format, and the bookkeeping for the external playback process. Terminal
//! I/O, rendering and the operating-system process calls live outside the
//! library and drive it through plain values.

pub mod codec;
pub mod controller;
pub mod file_tools;
pub mod form;
pub mod keys;
pub mod laws;
pub mod machine;
pub mod menu;
pub mod music;
pub mod playback;
pub mod roundtrip;
pub mod song;
pub mod video;
mod textops;
