//! The components, in one place.

pub use super::button::{Button, ButtonSize, ButtonVariant};
pub use super::file_uploader::FileUploader;
pub use super::input::{Input, InputSize};
