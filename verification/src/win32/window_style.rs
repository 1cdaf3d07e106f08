use vstd::prelude::*;

use crate::text::{int_decimal, push_decimal};

verus! {

/// `WS_POPUP`: a pop-up top-level window.
pub const WS_POPUP: u32 = 0x8000_0000;

/// `WS_CHILD`: a child window.
pub const WS_CHILD: u32 = 0x4000_0000;

/// `WS_VISIBLE`: an initially visible window.
pub const WS_VISIBLE: u32 = 0x1000_0000;

/// `WS_EX_APPWINDOW`: forces a top-level window onto the taskbar.
pub const WS_EX_APPWINDOW: u32 = 0x0004_0000;

/// `WS_EX_TOPMOST`: keeps a window above all non-topmost windows.
pub const WS_EX_TOPMOST: u32 = 0x0000_0008;

/// `WS_EX_NOACTIVATE`: a window that does not become the foreground window when clicked.
pub const WS_EX_NOACTIVATE: u32 = 0x0800_0000;

/// `word` has every bit of `bits` set.
pub open spec fn has_bits(word: isize, bits: isize) -> bool {
    word & bits == bits
}

/// `word` has no bit of `bits` set.
pub open spec fn lacks_bits(word: isize, bits: isize) -> bool {
    word & bits == 0
}

/// `a` and `b` agree on every bit outside `bits`.
pub open spec fn same_outside(a: isize, b: isize, bits: isize) -> bool {
    a & !bits == b & !bits
}

/// Makes a window style that of a visible child window: the pop-up bit cleared,
/// the child and visible bits set, every other bit kept.
pub fn normalize_child_style(style: isize) -> (r: isize)
    ensures
        lacks_bits(r, WS_POPUP as isize),
        has_bits(r, WS_CHILD as isize),
        has_bits(r, WS_VISIBLE as isize),
        same_outside(r, style, (WS_POPUP | WS_CHILD | WS_VISIBLE) as isize),
{
    let popup = WS_POPUP as isize;
    let child = WS_CHILD as isize;
    let visible = WS_VISIBLE as isize;
    let mask = (WS_POPUP | WS_CHILD | WS_VISIBLE) as isize;
    let r = (style & !popup) | child | visible;
    assert(WS_POPUP | WS_CHILD | WS_VISIBLE == 0xd000_0000u32) by (bit_vector);
    assert(r & popup == 0 && r & child == child && r & visible == visible && r & !mask == style
        & !mask) by (bit_vector)
        requires
            popup == 0x8000_0000u32 as isize,
            child == 0x4000_0000u32 as isize,
            visible == 0x1000_0000u32 as isize,
            mask == 0xd000_0000u32 as isize,
            r == (style & !popup) | child | visible,
    ;
    r
}

/// Clears the top-level shell bits (taskbar button, topmost) of an extended
/// window style, keeping every other bit, no-activate included.
pub fn normalize_child_ex_style(ex_style: isize) -> (r: isize)
    ensures
        lacks_bits(r, (WS_EX_APPWINDOW | WS_EX_TOPMOST) as isize),
        same_outside(r, ex_style, (WS_EX_APPWINDOW | WS_EX_TOPMOST) as isize),
{
    let remove_ex_style = WS_EX_APPWINDOW | WS_EX_TOPMOST;
    let mask = remove_ex_style as isize;
    let r = ex_style & !mask;
    assert(r & mask == 0 && r & !mask == ex_style & !mask) by (bit_vector)
        requires
            r == ex_style & !mask,
    ;
    r
}

/// Sets the no-activate bit of an extended window style, keeping every other bit.
pub fn no_activate_ex_style(ex_style: isize) -> (r: isize)
    ensures
        has_bits(r, WS_EX_NOACTIVATE as isize),
        same_outside(r, ex_style, WS_EX_NOACTIVATE as isize),
{
    let bit = WS_EX_NOACTIVATE as isize;
    let r = ex_style | bit;
    assert(r & bit == bit && r & !bit == ex_style & !bit) by (bit_vector)
        requires
            r == ex_style | bit,
    ;
    r
}

/// Turning a window into a child keeps its no-activate bit: the extended style
/// normalization leaves that bit as it was.
pub proof fn lemma_child_ex_style_keeps_no_activate(ex_style: isize, normalized: isize)
    requires
        same_outside(normalized, ex_style, (WS_EX_APPWINDOW | WS_EX_TOPMOST) as isize),
    ensures
        normalized & (WS_EX_NOACTIVATE as isize) == ex_style & (WS_EX_NOACTIVATE as isize),
{
    let mask = (WS_EX_APPWINDOW | WS_EX_TOPMOST) as isize;
    let bit = WS_EX_NOACTIVATE as isize;
    assert(WS_EX_APPWINDOW | WS_EX_TOPMOST == 0x0004_0008u32) by (bit_vector);
    assert(normalized & bit == ex_style & bit) by (bit_vector)
        requires
            mask == 0x0004_0008u32 as isize,
            bit == 0x0800_0000u32 as isize,
            normalized & !mask == ex_style & !mask,
    ;
}

/// Normalizing a child style twice changes nothing more than doing it once.
pub proof fn lemma_child_style_stable(style: isize, once: isize, twice: isize)
    requires
        lacks_bits(once, WS_POPUP as isize),
        has_bits(once, WS_CHILD as isize),
        has_bits(once, WS_VISIBLE as isize),
        same_outside(once, style, (WS_POPUP | WS_CHILD | WS_VISIBLE) as isize),
        lacks_bits(twice, WS_POPUP as isize),
        has_bits(twice, WS_CHILD as isize),
        has_bits(twice, WS_VISIBLE as isize),
        same_outside(twice, once, (WS_POPUP | WS_CHILD | WS_VISIBLE) as isize),
    ensures
        twice == once,
{
    let popup = WS_POPUP as isize;
    let child = WS_CHILD as isize;
    let visible = WS_VISIBLE as isize;
    let mask = (WS_POPUP | WS_CHILD | WS_VISIBLE) as isize;
    assert(WS_POPUP | WS_CHILD | WS_VISIBLE == 0xd000_0000u32) by (bit_vector);
    assert(twice == once) by (bit_vector)
        requires
            popup == 0x8000_0000u32 as isize,
            child == 0x4000_0000u32 as isize,
            visible == 0x1000_0000u32 as isize,
            mask == 0xd000_0000u32 as isize,
            once & popup == 0,
            once & child == child,
            once & visible == visible,
            twice & popup == 0,
            twice & child == child,
            twice & visible == visible,
            twice & !mask == once & !mask,
    ;
}

/// Interprets what `GetWindowLongPtrW` or `SetWindowLongPtrW` reported: zero is a
/// valid value unless the thread's last error is set, in which case the call
/// failed with that error code.
pub fn window_long_outcome(value: isize, last_error: u32) -> (r: Result<isize, u32>)
    ensures
        r == (if value == 0 && last_error != 0 {
            Err::<isize, u32>(last_error)
        } else {
            Ok(value)
        }),
{
    if value == 0 && last_error != 0 {
        Err(last_error)
    } else {
        Ok(value)
    }
}

/// The message of a failed window call on `hwnd`, ending with the system's
/// description of the error.
pub open spec fn window_call_failure_text(context: Seq<char>, hwnd: isize, os_text: Seq<char>) -> Seq<
    char,
> {
    context + " failed for "@ + int_decimal(hwnd as int) + ": "@ + os_text
}

/// Builds the message of a failed window call on `hwnd`.
pub fn window_call_failure_message(context: &str, hwnd: isize, os_text: &str) -> (r: String)
    ensures
        r@ == window_call_failure_text(context@, hwnd, os_text@),
{
    proof {
        reveal_strlit(" failed for ");
        reveal_strlit(": ");
    }
    let mut message = String::from_str(context);
    message.append(" failed for ");
    push_decimal(&mut message, hwnd as i64);
    message.append(": ");
    message.append(os_text);
    message
}

} // verus!
