//! The state and text of the full-screen dashboard.

pub mod app;
pub mod event;
pub mod ui;
