use vstd::prelude::*;

verus! {

/// A rectangle given by its top-left corner and its size.
#[derive(Debug, Clone, Copy, PartialEq, Eq, Structural)]
pub struct DockPanelBounds {
    pub x: i32,
    pub y: i32,
    pub width: i32,
    pub height: i32,
}

/// A screen rectangle given by its four edges.
#[derive(Debug, Clone, Copy, PartialEq, Eq, Structural)]
pub struct WindowRect {
    pub left: i32,
    pub top: i32,
    pub right: i32,
    pub bottom: i32,
}

/// What docking changed about a window, kept so that undocking can put it back,
/// together with where the window sits on the virtual canvas.
#[derive(Debug, Clone, Copy, PartialEq, Eq, Structural)]
pub struct DockStateSnapshot {
    pub hwnd: isize,
    pub original_parent: isize,
    pub original_style: isize,
    pub original_ex_style: isize,
    pub original_rect: WindowRect,
    pub virtual_bounds: DockPanelBounds,
}

/// Display metadata of a docked window.
#[derive(Debug)]
pub struct DockedWindowInfo {
    pub hwnd: isize,
    pub title: String,
    pub class_name: Option<String>,
    pub process_id: Option<u32>,
    pub virtual_bounds: DockPanelBounds,
}

/// An optional string taken as an optional character sequence.
pub open spec fn opt_string_view(s: Option<String>) -> Option<Seq<char>> {
    match s {
        Some(v) => Some(v@),
        None => None,
    }
}

/// The mathematical value of a [`DockedWindowInfo`].
pub struct DockedWindowInfoView {
    pub hwnd: isize,
    pub title: Seq<char>,
    pub class_name: Option<Seq<char>>,
    pub process_id: Option<u32>,
    pub virtual_bounds: DockPanelBounds,
}

impl View for DockedWindowInfo {
    type V = DockedWindowInfoView;

    open spec fn view(&self) -> DockedWindowInfoView {
        DockedWindowInfoView {
            hwnd: self.hwnd,
            title: self.title@,
            class_name: opt_string_view(self.class_name),
            process_id: self.process_id,
            virtual_bounds: self.virtual_bounds,
        }
    }
}

impl Clone for DockedWindowInfo {
    fn clone(&self) -> (r: Self)
        ensures
            r == *self,
    {
        DockedWindowInfo {
            hwnd: self.hwnd,
            title: self.title.clone(),
            class_name: match &self.class_name {
                Some(name) => Some(name.clone()),
                None => None,
            },
            process_id: self.process_id,
            virtual_bounds: self.virtual_bounds,
        }
    }
}

} // verus!
