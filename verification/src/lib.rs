//! The input and state logic of a minimalist, keyboard-driven MIDI sequencer.
//!
//! Each frame, user input is applied to the app's `State`. Most changes are recorded as a
//! `Snapshot` (the state before and after, and the synthesizer commands that undo and redo the
//! change), which goes on an undo stack of bounded size.
pub mod index;
mod strings;
pub mod model;
pub mod snapshot;
pub mod history;
pub mod popup;
pub mod input;
pub mod piano_roll;
pub mod synth;
pub mod tracks;
pub mod exporter;
pub mod abc123;
pub mod export_settings;
pub mod music_panel;
pub mod effects;
pub mod open_file;
pub mod links;
pub mod io;
pub mod save;
pub mod import;
pub mod text;
pub mod speech;
