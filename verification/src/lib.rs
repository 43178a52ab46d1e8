//! The verified core of `dockerwatch`, a terminal monitor for container CPU
//! and memory usage.

pub mod detail;
pub mod dialog;
pub mod display;
pub mod docker;
pub mod footer;
pub mod header;
pub mod keyboard;
pub mod laws;
pub mod layout;
pub mod listing;
pub mod order;
pub mod panel;
pub mod percent;
pub mod popup;
pub mod readings;
pub mod rows;
pub mod scene;
pub mod session;
pub mod sizes;
pub mod style;
pub mod table;
pub mod text;
pub mod ui;
pub mod wording;
