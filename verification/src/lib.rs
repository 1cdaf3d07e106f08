//! Verified core of a native window dock: overlay configuration, dock state,
//! and the window-management decisions of the dock shell.
pub mod commands;
pub mod models;
pub mod state;
pub mod text;
pub mod win32;
