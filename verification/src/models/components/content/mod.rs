//! Components that show content.

pub mod text_display;
pub mod thumbnail;
