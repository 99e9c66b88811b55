//! What is shown on the screen, as far as it can be said without drawing it.

pub mod collection;
pub mod param_tabs;
pub mod result_tabs;
