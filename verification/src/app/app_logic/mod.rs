//! The operations that the user triggers.

pub mod collection;
pub mod environment;
pub mod inputs;
pub mod request;
pub mod selection;
