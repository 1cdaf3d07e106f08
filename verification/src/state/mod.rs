//! The in-memory state of the dock shell: overlay configuration and docked windows.
pub mod dock_state_store;
pub mod overlay_state_store;

pub use dock_state_store::DockStateStore;
pub use overlay_state_store::OverlayStateStore;
