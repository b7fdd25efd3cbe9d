//! What the application owes the system it runs on: the sweep of its temp
//! directory and its global shortcut.

pub mod hotkeys;
pub mod shutdown;
