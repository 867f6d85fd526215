//! Input and view-control core of a handheld with a 56-key scanning matrix.
//!
//! The keyboard matrix is decoded into key transitions (`keyboard_io`), the
//! transitions are resolved into logical symbols under the current modifier
//! and language state (`keyboard`), and a view manager sequences the on-screen
//! views (`view_manager`, `views`).
pub mod keyboard_io;
pub mod keyboard;
pub mod keyboard_state;
pub mod ui;
pub mod view_manager;
pub mod views;
