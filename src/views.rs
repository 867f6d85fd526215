//! The concrete views.
pub mod main_menu;
pub mod start;
