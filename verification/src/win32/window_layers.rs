use vstd::prelude::*;

use super::Hwnd;
use crate::text::{int_decimal, push_decimal};

verus! {

/// The webviews registered as layers of the dock: the background webview that
/// docked windows sit above, and the overlay webview that sits above them.
#[derive(Debug, Clone, Copy, PartialEq, Eq, Structural)]
pub struct WindowLayers {
    pub bottom_webview: Option<isize>,
    pub overlay_webview: Option<isize>,
}

/// The message of a layer registration with a handle that names no window.
pub open spec fn invalid_layer_message(label: Seq<char>, hwnd: isize) -> Seq<char> {
    "Invalid "@ + label + " HWND: "@ + int_decimal(hwnd as int)
}

/// The layer handle held in a slot, while it still names a window (`is_window`
/// is what the window system answers for the held handle).
pub open spec fn live_layer(slot: Option<isize>, is_window: bool) -> Option<Hwnd> {
    match slot {
        Some(h) => if is_window {
            Some(Hwnd(h))
        } else {
            None
        },
        None => None,
    }
}

impl WindowLayers {
    /// No layer registered yet.
    pub fn new() -> (r: Self)
        ensures
            r.bottom_webview is None,
            r.overlay_webview is None,
    {
        WindowLayers { bottom_webview: None, overlay_webview: None }
    }
}

/// Writes a live window handle into a layer slot; a handle that names no window
/// is refused and the slot is left as it was.
fn register_layer_hwnd(slot: &mut Option<isize>, hwnd: Hwnd, is_window: bool, label: &str) -> (r:
    Result<(), String>)
    ensures
        r is Ok <==> is_window,
        r is Ok ==> *final(slot) == Some(hwnd.0),
        r matches Err(e) ==> *final(slot) == *old(slot) && e@ == invalid_layer_message(
            label@,
            hwnd.0,
        ),
{
    if !is_window {
        proof {
            reveal_strlit("Invalid ");
            reveal_strlit(" HWND: ");
        }
        let mut message = String::from_str("Invalid ");
        message.append(label);
        message.append(" HWND: ");
        push_decimal(&mut message, hwnd.0 as i64);
        return Err(message);
    }
    *slot = Some(hwnd.0);
    Ok(())
}

/// Reads a layer slot, keeping the handle only while it names a window.
fn layer_hwnd(slot: Option<isize>, is_window: bool) -> (r: Option<Hwnd>)
    ensures
        r == live_layer(slot, is_window),
{
    match slot {
        Some(h) => if is_window {
            Some(Hwnd(h))
        } else {
            None
        },
        None => None,
    }
}

/// Registers the background webview, which docked windows are layered above.
pub fn register_bottom_webview(layers: &mut WindowLayers, hwnd: Hwnd, is_window: bool) -> (r:
    Result<(), String>)
    ensures
        r is Ok <==> is_window,
        final(layers).overlay_webview == old(layers).overlay_webview,
        r is Ok ==> final(layers).bottom_webview == Some(hwnd.0),
        r matches Err(e) ==> final(layers).bottom_webview == old(layers).bottom_webview && e@
            == invalid_layer_message("bottom webview"@, hwnd.0),
{
    register_layer_hwnd(&mut layers.bottom_webview, hwnd, is_window, "bottom webview")
}

/// Registers the overlay webview, which is raised above docked windows.
pub fn register_overlay_webview(layers: &mut WindowLayers, hwnd: Hwnd, is_window: bool) -> (r:
    Result<(), String>)
    ensures
        r is Ok <==> is_window,
        final(layers).bottom_webview == old(layers).bottom_webview,
        r is Ok ==> final(layers).overlay_webview == Some(hwnd.0),
        r matches Err(e) ==> final(layers).overlay_webview == old(layers).overlay_webview && e@
            == invalid_layer_message("overlay webview"@, hwnd.0),
{
    register_layer_hwnd(&mut layers.overlay_webview, hwnd, is_window, "overlay webview")
}

/// The registered background webview, while it still names a window
/// (`is_window` is the window system's answer for the registered handle).
pub fn bottom_webview_hwnd(layers: &WindowLayers, is_window: bool) -> (r: Option<Hwnd>)
    ensures
        r == live_layer(layers.bottom_webview, is_window),
{
    layer_hwnd(layers.bottom_webview, is_window)
}

/// The registered overlay webview, while it still names a window
/// (`is_window` is the window system's answer for the registered handle).
pub fn overlay_hwnd(layers: &WindowLayers, is_window: bool) -> (r: Option<Hwnd>)
    ensures
        r == live_layer(layers.overlay_webview, is_window),
{
    layer_hwnd(layers.overlay_webview, is_window)
}

} // verus!
