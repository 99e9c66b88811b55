//! The application: its state, the operations on it, and its files.

pub mod app;
pub mod app_logic;
pub mod app_states;
pub mod files;
pub mod startup;
pub mod ui;
