//! Operations on the request that is open.

pub mod auth;
pub mod utils;
