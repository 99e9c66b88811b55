//! The files of the main directory: where they are, what they hold, and how
//! what they hold is written.

pub mod collection;
pub mod config;
pub mod document;
pub mod format;
