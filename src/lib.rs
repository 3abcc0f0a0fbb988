//! A small file browser's logic: entry listings, size and date labels,
//! directory paths and the navigation rules of the browser's window.

pub mod civil;
pub mod clock;
pub mod digits;
pub mod dir_path;
pub mod entry;
pub mod manager;
pub mod size_text;
