//! Core of a minimal interactive text editor: a buffer of text lines and a
//! cursor position, mutated one discrete editing action at a time.
//!
//! The buffer is the logic layer behind a visual editing widget: the widget
//! translates raw input events into [`backend::Action`] values and queries the
//! buffer for its content and cursor position in order to render.

pub mod backend;
pub mod laws;
