//! Decisions and texts of the terminal tool.
pub mod commands;
pub mod factory;
pub mod app;
pub mod view;
