//! The dock shell's commands: what each request decides and changes.
pub mod windows;
pub mod dock_plan;
