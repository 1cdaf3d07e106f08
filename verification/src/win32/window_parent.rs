use vstd::prelude::*;

use super::Hwnd;
use crate::text::{int_decimal, prefixed_decimal, push_decimal};

verus! {

/// The message of a window handle that is null or no longer names a window.
pub open spec fn invalid_hwnd_message(hwnd: isize) -> Seq<char> {
    "Invalid HWND: "@ + int_decimal(hwnd as int)
}

/// A request to make `parent` the parent window of `child`.
#[derive(Debug, Clone, Copy, PartialEq, Eq, Structural)]
pub struct ParentChange {
    pub child: Hwnd,
    pub parent: Hwnd,
}

/// Rejects a null handle, or one that no longer names a window (`is_window`
/// is what the window system answers for it).
pub fn ensure_valid_window(hwnd: Hwnd, is_window: bool) -> (r: Result<(), String>)
    ensures
        r is Ok <==> hwnd.0 != 0 && is_window,
        r matches Err(e) ==> e@ == invalid_hwnd_message(hwnd.0),
{
    if hwnd.0 == 0 || !is_window {
        proof {
            reveal_strlit("Invalid HWND: ");
        }
        return Err(prefixed_decimal("Invalid HWND: ", hwnd.0 as i64));
    }
    Ok(())
}

/// Puts `child` back under a previously saved `parent`, which may be null.
pub fn restore_parent(child: Hwnd, parent: Hwnd) -> (r: ParentChange)
    ensures
        r == (ParentChange { child, parent }),
{
    ParentChange { child, parent }
}

/// Reparents `child` into `parent`; both must name live windows (`child_is_window`
/// and `parent_is_window` are what the window system answers for them).
pub fn set_parent(child: Hwnd, parent: Hwnd, child_is_window: bool, parent_is_window: bool) -> (r:
    Result<ParentChange, String>)
    ensures
        r is Ok <==> child.0 != 0 && child_is_window && parent.0 != 0 && parent_is_window,
        r matches Ok(change) ==> change == (ParentChange { child, parent }),
        r matches Err(e) ==> e@ == (if !(child.0 != 0 && child_is_window) {
            invalid_hwnd_message(child.0)
        } else {
            invalid_hwnd_message(parent.0)
        }),
{
    ensure_valid_window(child, child_is_window)?;
    ensure_valid_window(parent, parent_is_window)?;
    Ok(restore_parent(child, parent))
}

/// Interprets what `SetParent` reported: a null previous parent is a failure
/// only when the thread's last error is set (a null parent is a valid restore
/// target). The failure carries that error code.
pub fn set_parent_outcome(previous_is_null: bool, last_error: u32) -> (r: Result<(), u32>)
    ensures
        r == (if previous_is_null && last_error != 0 {
            Err::<(), u32>(last_error)
        } else {
            Ok(())
        }),
{
    if previous_is_null && last_error != 0 {
        Err(last_error)
    } else {
        Ok(())
    }
}

/// The message of a failed reparenting, ending with the system's description of
/// the error.
pub open spec fn set_parent_failure_text(change: ParentChange, os_text: Seq<char>) -> Seq<char> {
    "SetParent failed for "@ + int_decimal(change.child.0 as int) + " -> "@ + int_decimal(
        change.parent.0 as int,
    ) + ": "@ + os_text
}

/// Builds the message of a failed reparenting from the system's description of the error.
pub fn set_parent_failure_message(change: ParentChange, os_text: &str) -> (r: String)
    ensures
        r@ == set_parent_failure_text(change, os_text@),
{
    proof {
        reveal_strlit("SetParent failed for ");
        reveal_strlit(" -> ");
        reveal_strlit(": ");
    }
    let mut message = prefixed_decimal("SetParent failed for ", change.child.0 as i64);
    message.append(" -> ");
    push_decimal(&mut message, change.parent.0 as i64);
    message.append(": ");
    message.append(os_text);
    message
}

} // verus!
