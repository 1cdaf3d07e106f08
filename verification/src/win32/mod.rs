//! Window-system decisions of the dock shell: handles, parents, placement,
//! styles, window listings, layer registration and activation guards.
pub mod hwnd;
pub mod window_activation;
pub mod window_enum;
pub mod window_layers;
pub mod window_parent;
pub mod window_position;
pub mod window_style;

pub use hwnd::Hwnd;
