//! What the application is started with.

pub mod args;
