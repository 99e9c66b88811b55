//! Requests and what they are made of, collections and environments.

pub mod auth;
pub mod body;
pub mod collection;
pub mod environment;
pub mod key_value;
pub mod method;
pub mod request;
pub mod response;
pub mod scripts;
pub mod settings;
