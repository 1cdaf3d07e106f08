//! Plain data exchanged between the dock shell, its web front end and the window system.
pub mod dock_state;
pub mod overlay;
pub mod window_info;

pub use dock_state::{DockPanelBounds, DockStateSnapshot, DockedWindowInfo, WindowRect};
pub use overlay::{OverlayConfig, OverlayConfigFile, OverlayConfigView, OverlaySize};
pub use window_info::WindowInfo;
