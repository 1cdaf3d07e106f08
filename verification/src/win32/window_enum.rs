use vstd::prelude::*;

use super::Hwnd;
use crate::models::WindowInfo;
use crate::text::{is_blank, is_blank_str};

verus! {

/// An empty string taken as absent.
pub open spec fn non_empty(value: String) -> Option<String> {
    if value@.len() == 0 {
        None
    } else {
        Some(value)
    }
}

/// A zero process id taken as absent.
pub open spec fn known_process(process_id: u32) -> Option<u32> {
    if process_id == 0 {
        None
    } else {
        Some(process_id)
    }
}

/// The metadata of a window from what the window system reports for it.
pub open spec fn window_info_of(hwnd: isize, title: String, class_name: String, process_id: u32) -> WindowInfo {
    WindowInfo {
        hwnd,
        title,
        class_name: non_empty(class_name),
        process_id: known_process(process_id),
    }
}

/// Normalizes an empty window-system string into an absent value.
pub fn non_empty_string(value: String) -> (r: Option<String>)
    ensures
        r == non_empty(value),
{
    if value.as_str().is_empty() {
        None
    } else {
        Some(value)
    }
}

/// Normalizes the process id of a window: zero means unknown.
pub fn process_id(raw_process_id: u32) -> (r: Option<u32>)
    ensures
        r == known_process(raw_process_id),
{
    if raw_process_id != 0 {
        Some(raw_process_id)
    } else {
        None
    }
}

/// User-facing metadata of a window from its title, class name and owning process
/// id as the window system reports them.
pub fn get_window_info(hwnd: Hwnd, title: String, class_name: String, raw_process_id: u32) -> (r:
    WindowInfo)
    ensures
        r == window_info_of(hwnd.0, title, class_name, raw_process_id),
{
    WindowInfo {
        hwnd: hwnd.0,
        title,
        class_name: non_empty_string(class_name),
        process_id: process_id(raw_process_id),
    }
}

/// Whether a window belongs in the user-facing window list: visible and not
/// owned by another window.
pub fn is_candidate_window(visible: bool, has_owner: bool) -> (r: bool)
    ensures
        r == (visible && !has_owner),
{
    visible && !has_owner
}

/// The list entry for one top-level window met while enumerating: visible,
/// unowned windows with a title that is not blank are listed.
pub fn enum_window_entry(
    hwnd: Hwnd,
    visible: bool,
    has_owner: bool,
    title: String,
    class_name: String,
    raw_process_id: u32,
) -> (r: Option<WindowInfo>)
    ensures
        r == (if visible && !has_owner && !is_blank(title@) {
            Some(window_info_of(hwnd.0, title, class_name, raw_process_id))
        } else {
            None
        }),
{
    if !is_candidate_window(visible, has_owner) {
        return None;
    }
    if is_blank_str(title.as_str()) {
        return None;
    }
    Some(get_window_info(hwnd, title, class_name, raw_process_id))
}

/// A UTF-16 code unit in the surrogate range.
pub open spec fn is_surrogate(u: u16) -> bool {
    0xD800 <= u <= 0xDFFF
}

/// A UTF-16 code unit that can open a surrogate pair.
pub open spec fn is_high_surrogate(u: u16) -> bool {
    0xD800 <= u <= 0xDBFF
}

/// A UTF-16 code unit that can close a surrogate pair.
pub open spec fn is_low_surrogate(u: u16) -> bool {
    0xDC00 <= u <= 0xDFFF
}

/// UTF-16 decoding that puts U+FFFD in place of each unpaired surrogate, as
/// `String::from_utf16_lossy` documents it.
pub open spec fn utf16_lossy(units: Seq<u16>) -> Seq<char>
    decreases units.len(),
{
    if units.len() == 0 {
        Seq::empty()
    } else if !is_surrogate(units[0]) {
        seq![units[0] as char] + utf16_lossy(units.drop_first())
    } else if is_high_surrogate(units[0]) && units.len() >= 2 && is_low_surrogate(units[1]) {
        seq![
            (0x10000 + (units[0] - 0xD800) * 0x400 + (units[1] - 0xDC00)) as char,
        ] + utf16_lossy(units.subrange(2, units.len() as int))
    } else {
        seq!['\u{FFFD}'] + utf16_lossy(units.drop_first())
    }
}

/// `String::from_utf16_lossy`: decodes UTF-16, replacing each unpaired surrogate
/// with U+FFFD. The contract states that decoding in full.
#[verifier::external_body]
fn from_utf16_lossy(units: &[u16]) -> (r: String)
    ensures
        r@ == utf16_lossy(units@),
{
    String::from_utf16_lossy(units)
}

/// Decodes the first `written` code units of a window-system text buffer
/// (none when `written` is negative).
pub fn decode_utf16_prefix(buffer: &Vec<u16>, written: i32) -> (r: String)
    requires
        written <= buffer@.len(),
    ensures
        r@ == utf16_lossy(buffer@.take(if written < 0 { 0 } else { written as int })),
{
    let count: usize = if written < 0 {
        0
    } else {
        written as usize
    };
    let mut prefix: Vec<u16> = Vec::new();
    let mut i: usize = 0;
    while i < count
        invariant
            count <= buffer@.len(),
            i <= count,
            prefix@ == buffer@.take(i as int),
        decreases count - i,
    {
        prefix.push(buffer[i]);
        assert(prefix@ =~= buffer@.take(i + 1));
        i = i + 1;
    }
    from_utf16_lossy(prefix.as_slice())
}

} // verus!
