//! The text of every file that a new project starts with.

pub mod templates;
