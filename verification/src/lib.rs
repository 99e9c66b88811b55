//! The core of a terminal API client: collections of requests that the
//! editor and running executions share, the selection that addresses them,
//! the operations that create, rename, reorder and delete them, the form in
//! which they stand in their files, and the templating of text with
//! environments.
//!
//! Nothing here reads or writes a file, a terminal or a clipboard. An
//! operation that changes what is saved returns the step that its caller has
//! to carry out on the files.

pub mod app;
pub mod request;
pub mod utils;
