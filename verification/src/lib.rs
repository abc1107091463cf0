//! A windowed paging cursor for viewing binary files as aligned hexadecimal
//! and character columns.

pub mod editor;
pub mod file;
pub mod geometry;
pub mod input;
pub mod panel;
pub mod render;
pub mod snapshot;
pub mod stuff;
pub mod view;
