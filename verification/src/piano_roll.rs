//! The piano roll, divided into sub-panels (modes).
pub mod edit_mode_deltas;
pub mod edit;
pub mod time;
pub mod view;
pub mod select;
pub mod copy;
pub mod panel;
pub mod sub_panel;
