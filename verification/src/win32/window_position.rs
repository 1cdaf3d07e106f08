use vstd::prelude::*;

use super::Hwnd;
use crate::models::{DockPanelBounds, WindowRect};
use crate::text::{concat_str, int_decimal, prefixed_decimal, push_decimal};

verus! {

/// Where to place a window: its top-left corner and size, in its parent's coordinates.
#[derive(Debug, Clone, Copy, PartialEq, Eq, Structural)]
pub struct WindowPlacement {
    pub hwnd: Hwnd,
    pub x: i32,
    pub y: i32,
    pub width: i32,
    pub height: i32,
}

/// The message of a placement whose size is not positive.
pub open spec fn nonpositive_size_message(width: i32, height: i32) -> Seq<char> {
    "Window bounds must be positive: "@ + int_decimal(width as int) + "x"@ + int_decimal(
        height as int,
    )
}

/// The placement the window system is asked for: `width` and `height` must be positive.
fn set_position(hwnd: Hwnd, x: i32, y: i32, width: i32, height: i32) -> (r: Result<
    WindowPlacement,
    String,
>)
    ensures
        r is Ok <==> width > 0 && height > 0,
        r matches Ok(p) ==> p == (WindowPlacement { hwnd, x, y, width, height }),
        r matches Err(e) ==> e@ == nonpositive_size_message(width, height),
{
    if width <= 0 || height <= 0 {
        proof {
            reveal_strlit("Window bounds must be positive: ");
            reveal_strlit("x");
        }
        let mut message = prefixed_decimal("Window bounds must be positive: ", width as i64);
        message.append("x");
        push_decimal(&mut message, height as i64);
        return Err(message);
    }
    Ok(WindowPlacement { hwnd, x, y, width, height })
}

/// Places a docked child window at `bounds`, which must have a positive size.
pub fn set_window_position(hwnd: Hwnd, bounds: DockPanelBounds) -> (r: Result<
    WindowPlacement,
    String,
>)
    ensures
        r is Ok <==> bounds.width > 0 && bounds.height > 0,
        r matches Ok(p) ==> p == (WindowPlacement {
            hwnd,
            x: bounds.x,
            y: bounds.y,
            width: bounds.width,
            height: bounds.height,
        }),
        r matches Err(e) ==> e@ == nonpositive_size_message(bounds.width, bounds.height),
{
    set_position(hwnd, bounds.x, bounds.y, bounds.width, bounds.height)
}

/// Puts a window back at a saved screen rectangle, which must have a positive size.
pub fn restore_window_rect(hwnd: Hwnd, rect: WindowRect) -> (r: Result<WindowPlacement, String>)
    requires
        i32::MIN <= rect.right - rect.left <= i32::MAX,
        i32::MIN <= rect.bottom - rect.top <= i32::MAX,
    ensures
        r is Ok <==> rect.left < rect.right && rect.top < rect.bottom,
        r matches Ok(p) ==> p == (WindowPlacement {
            hwnd,
            x: rect.left,
            y: rect.top,
            width: (rect.right - rect.left) as i32,
            height: (rect.bottom - rect.top) as i32,
        }),
        r matches Err(e) ==> e@ == nonpositive_size_message(
            (rect.right - rect.left) as i32,
            (rect.bottom - rect.top) as i32,
        ),
{
    set_position(hwnd, rect.left, rect.top, rect.right - rect.left, rect.bottom - rect.top)
}

/// The bounds of a child window from its corners in the parent's client coordinates.
pub fn bounds_from_client_corners(left: i32, top: i32, right: i32, bottom: i32) -> (r:
    DockPanelBounds)
    requires
        i32::MIN <= right - left <= i32::MAX,
        i32::MIN <= bottom - top <= i32::MAX,
    ensures
        r.x == left,
        r.y == top,
        r.width == right - left,
        r.height == bottom - top,
{
    DockPanelBounds { x: left, y: top, width: right - left, height: bottom - top }
}

/// The message of a failed window-system call: the operation, then the system's
/// description of the last error.
pub open spec fn os_error_text(context: Seq<char>, os_text: Seq<char>) -> Seq<char> {
    context + ": "@ + os_text
}

/// Formats the last window-system error with a short operation label.
pub fn last_os_error(context: &str, os_text: &str) -> (r: String)
    ensures
        r@ == os_error_text(context@, os_text@),
{
    proof {
        reveal_strlit(": ");
    }
    let mut message = concat_str(context, ": ");
    message.append(os_text);
    message
}

/// Whether a window-system call that reports success as non-zero succeeded.
pub fn call_succeeded(result: i32) -> (r: bool)
    ensures
        r == (result != 0),
{
    result != 0
}

} // verus!
