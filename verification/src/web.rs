//! Components for web pages.

pub mod button;
pub mod file_uploader;
pub mod input;
pub mod prelude;
