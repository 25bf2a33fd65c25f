//! Sokuten: the verified core of a system-tray text expander.

pub mod phrases;
pub mod text;
pub mod inject;
pub mod hotkey;
pub mod tray;
pub mod ui;
pub mod laws;
