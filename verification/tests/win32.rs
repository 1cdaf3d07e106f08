use window_dock::models::{DockPanelBounds, WindowRect};
use window_dock::win32::window_activation::{
    capture_keyboard_target, foreground_event_action, no_activate_reply, register_focus_guard_window,
    remember_foreground, restore_last_regular_foreground, should_attach_input,
    unregister_focus_guard_window, ActivationGuardMode, ActivationMessage, FocusGuards,
    FocusRestore, ForegroundAction, KeyboardTarget, WndProcEntry, WndProcRegistry, WndProcReply,
};
use window_dock::win32::window_enum::{
    decode_utf16_prefix, enum_window_entry, get_window_info, is_candidate_window, non_empty_string,
    process_id,
};
use window_dock::win32::window_layers::{
    bottom_webview_hwnd, overlay_hwnd, register_bottom_webview, register_overlay_webview,
    WindowLayers,
};
use window_dock::win32::window_parent::{
    ensure_valid_window, restore_parent, set_parent, set_parent_failure_message, set_parent_outcome,
    ParentChange,
};
use window_dock::win32::window_style::{window_call_failure_message, window_long_outcome};
use window_dock::win32::window_position::{call_succeeded, last_os_error};
use window_dock::win32::window_activation::ForegroundHook;
use window_dock::win32::window_position::{
    bounds_from_client_corners, restore_window_rect, set_window_position, WindowPlacement,
};
use window_dock::win32::window_style::{
    no_activate_ex_style, normalize_child_ex_style, normalize_child_style, WS_CHILD,
    WS_EX_APPWINDOW, WS_EX_NOACTIVATE, WS_EX_TOPMOST, WS_POPUP, WS_VISIBLE,
};
use window_dock::win32::Hwnd;
use windows_sys::Win32::UI::WindowsAndMessaging as wm;

#[test]
fn style_constants_match_windows_sys() {
    assert_eq!(WS_POPUP, wm::WS_POPUP);
    assert_eq!(WS_CHILD, wm::WS_CHILD);
    assert_eq!(WS_VISIBLE, wm::WS_VISIBLE);
    assert_eq!(WS_EX_APPWINDOW, wm::WS_EX_APPWINDOW);
    assert_eq!(WS_EX_TOPMOST, wm::WS_EX_TOPMOST);
    assert_eq!(WS_EX_NOACTIVATE, wm::WS_EX_NOACTIVATE);
}

#[test]
fn child_style_clears_popup_and_sets_child_visible() {
    assert_eq!(normalize_child_style(0x80c0_0000), 0x50c0_0000);
    assert_eq!(normalize_child_style(0), 0x5000_0000);
    assert_eq!(normalize_child_style(normalize_child_style(0x14cf_0000)), normalize_child_style(0x14cf_0000));
    assert_eq!(normalize_child_style(-1), -1 & !(0x8000_0000u32 as isize));
}

#[test]
fn child_ex_style_clears_shell_bits_and_keeps_no_activate() {
    assert_eq!(normalize_child_ex_style(0x0804_0108), 0x0800_0100);
    assert_eq!(normalize_child_ex_style(0), 0);
    assert_eq!(no_activate_ex_style(0x100), 0x0800_0100);
    assert_eq!(no_activate_ex_style(0x0800_0100), 0x0800_0100);
}

#[test]
fn placement_requires_positive_size() {
    assert_eq!(
        set_window_position(Hwnd(3), DockPanelBounds { x: -1, y: 2, width: 30, height: 40 }),
        Ok(WindowPlacement { hwnd: Hwnd(3), x: -1, y: 2, width: 30, height: 40 })
    );
    assert_eq!(
        set_window_position(Hwnd(3), DockPanelBounds { x: 0, y: 0, width: 0, height: -3 }).unwrap_err(),
        "Window bounds must be positive: 0x-3"
    );
}

#[test]
fn restore_rect_uses_edges() {
    let rect = WindowRect { left: 10, top: 20, right: 110, bottom: 220 };
    assert_eq!(
        restore_window_rect(Hwnd(4), rect),
        Ok(WindowPlacement { hwnd: Hwnd(4), x: 10, y: 20, width: 100, height: 200 })
    );
    let inverted = WindowRect { left: 50, top: 0, right: 20, bottom: 10 };
    assert_eq!(restore_window_rect(Hwnd(4), inverted).unwrap_err(), "Window bounds must be positive: -30x10");
}

#[test]
fn client_corners_give_bounds() {
    assert_eq!(bounds_from_client_corners(-5, 7, 95, 57), DockPanelBounds { x: -5, y: 7, width: 100, height: 50 });
}

#[test]
fn parent_changes_validate_windows() {
    assert_eq!(ensure_valid_window(Hwnd(0), true).unwrap_err(), "Invalid HWND: 0");
    assert_eq!(ensure_valid_window(Hwnd(12), false).unwrap_err(), "Invalid HWND: 12");
    assert_eq!(set_parent(Hwnd(1), Hwnd(2), true, true), Ok(ParentChange { child: Hwnd(1), parent: Hwnd(2) }));
    assert_eq!(set_parent(Hwnd(1), Hwnd(2), false, true).unwrap_err(), "Invalid HWND: 1");
    assert_eq!(set_parent(Hwnd(1), Hwnd(2), true, false).unwrap_err(), "Invalid HWND: 2");
    assert_eq!(restore_parent(Hwnd(1), Hwnd(0)), ParentChange { child: Hwnd(1), parent: Hwnd(0) });
}

#[test]
fn window_info_normalizes_empty_values() {
    assert_eq!(non_empty_string(String::new()), None);
    assert_eq!(non_empty_string("x".to_string()), Some("x".to_string()));
    assert_eq!(process_id(0), None);
    assert_eq!(process_id(7), Some(7));
    let info = get_window_info(Hwnd(5), "Title".to_string(), String::new(), 0);
    assert_eq!(info.hwnd, 5);
    assert_eq!(info.title, "Title");
    assert_eq!(info.class_name, None);
    assert_eq!(info.process_id, None);
}

#[test]
fn enumeration_lists_visible_unowned_titled_windows() {
    assert!(is_candidate_window(true, false));
    assert!(!is_candidate_window(true, true));
    assert!(!is_candidate_window(false, false));
    let listed = enum_window_entry(Hwnd(9), true, false, "Doc".to_string(), "Cls".to_string(), 3).unwrap();
    assert_eq!(listed.title, "Doc");
    assert_eq!(listed.class_name.as_deref(), Some("Cls"));
    assert_eq!(listed.process_id, Some(3));
    assert!(enum_window_entry(Hwnd(9), true, false, "  ".to_string(), "Cls".to_string(), 3).is_none());
    assert!(enum_window_entry(Hwnd(9), true, true, "Doc".to_string(), "Cls".to_string(), 3).is_none());
    assert!(enum_window_entry(Hwnd(9), false, false, "Doc".to_string(), "Cls".to_string(), 3).is_none());
}

#[test]
fn utf16_prefix_decoding_replaces_unpaired_surrogates() {
    let buffer: Vec<u16> = vec![0x48, 0x69, 0xD83D, 0xDE00, 0xD800, 0x41, 0xDC00, 0, 0];
    assert_eq!(decode_utf16_prefix(&buffer, 7), "Hi\u{1F600}\u{FFFD}A\u{FFFD}");
    assert_eq!(decode_utf16_prefix(&buffer, 2), "Hi");
    assert_eq!(decode_utf16_prefix(&buffer, -4), "");
    assert_eq!(decode_utf16_prefix(&buffer, 3), "Hi\u{FFFD}");
}

#[test]
fn layers_keep_live_registrations() {
    let mut layers = WindowLayers::new();
    assert_eq!(register_bottom_webview(&mut layers, Hwnd(5), false).unwrap_err(), "Invalid bottom webview HWND: 5");
    assert_eq!(layers.bottom_webview, None);
    register_bottom_webview(&mut layers, Hwnd(5), true).unwrap();
    assert_eq!(register_overlay_webview(&mut layers, Hwnd(6), false).unwrap_err(), "Invalid overlay webview HWND: 6");
    register_overlay_webview(&mut layers, Hwnd(6), true).unwrap();
    assert_eq!(bottom_webview_hwnd(&layers, true), Some(Hwnd(5)));
    assert_eq!(bottom_webview_hwnd(&layers, false), None);
    assert_eq!(overlay_hwnd(&layers, true), Some(Hwnd(6)));
    assert_eq!(overlay_hwnd(&WindowLayers::new(), true), None);
}

#[test]
fn wndproc_registry_keeps_original_and_upgrades_mode() {
    let mut registry = WndProcRegistry::new();
    assert!(registry.begin_install(Hwnd(1), ActivationGuardMode::MouseOnly));
    assert!(!registry.finish_install(Hwnd(1), ActivationGuardMode::MouseOnly, 0));
    assert_eq!(registry.activation_guard_mode(Hwnd(1)), None);
    assert!(registry.finish_install(Hwnd(1), ActivationGuardMode::MouseOnly, 0x1000));
    assert!(!registry.begin_install(Hwnd(1), ActivationGuardMode::Strict));
    assert_eq!(registry.activation_guard_mode(Hwnd(1)), Some(ActivationGuardMode::Strict));
    assert!(!registry.begin_install(Hwnd(1), ActivationGuardMode::MouseOnly));
    assert_eq!(registry.activation_guard_mode(Hwnd(1)), Some(ActivationGuardMode::Strict));
    assert_eq!(registry.previous_window_proc(Hwnd(1)), Some(0x1000));
    assert_eq!(registry.entries.get(&1), Some(&WndProcEntry { previous: 0x1000, mode: ActivationGuardMode::Strict }));
    assert_eq!(registry.uninstall_no_activate_handler_for_hwnd(Hwnd(1), false), None);
    assert_eq!(registry.uninstall_no_activate_handler_for_hwnd(Hwnd(1), true), Some(0x1000));
    assert_eq!(registry.uninstall_no_activate_handler_for_hwnd(Hwnd(1), true), None);
    assert!(registry.entries.is_empty());
}

#[test]
fn guarded_window_procedure_answers() {
    let strict = Some(ActivationGuardMode::Strict);
    let mouse = Some(ActivationGuardMode::MouseOnly);
    assert_eq!(no_activate_reply(None, ActivationMessage::MouseActivate), WndProcReply::MouseNoActivate);
    assert_eq!(no_activate_reply(mouse, ActivationMessage::MouseActivate), WndProcReply::MouseNoActivate);
    assert_eq!(no_activate_reply(strict, ActivationMessage::SetFocus), WndProcReply::Return(0));
    assert_eq!(no_activate_reply(strict, ActivationMessage::Activate), WndProcReply::Return(0));
    assert_eq!(no_activate_reply(strict, ActivationMessage::NcActivate), WndProcReply::Return(1));
    assert_eq!(no_activate_reply(strict, ActivationMessage::Other), WndProcReply::Forward);
    assert_eq!(no_activate_reply(mouse, ActivationMessage::SetFocus), WndProcReply::Forward);
    assert_eq!(no_activate_reply(None, ActivationMessage::NcActivate), WndProcReply::Forward);
}

#[test]
fn focus_guards_register_and_unregister() {
    let mut guards = FocusGuards::new();
    register_focus_guard_window(&mut guards, Hwnd(3));
    assert!(guards.contains(Hwnd(3)));
    assert!(guards.is_guarded_or_child(Hwnd(3), false));
    assert!(guards.is_guarded_or_child(Hwnd(4), true));
    assert!(!guards.is_guarded_or_child(Hwnd(4), false));
    unregister_focus_guard_window(&mut guards, Hwnd(3));
    assert!(!guards.contains(Hwnd(3)));
    unregister_focus_guard_window(&mut guards, Hwnd(3));
    assert!(guards.guarded.is_empty());
}

#[test]
fn keyboard_target_memory_and_restore() {
    assert_eq!(capture_keyboard_target(Hwnd(1), 0), KeyboardTarget { foreground: 1, focus: None });
    let mut last = None;
    remember_foreground(&mut last, Hwnd(8), false, 9);
    assert_eq!(last, None);
    remember_foreground(&mut last, Hwnd(8), true, 9);
    assert_eq!(last, Some(KeyboardTarget { foreground: 8, focus: Some(9) }));
    assert_eq!(
        restore_last_regular_foreground(last, true, false, true),
        Some(FocusRestore { foreground: Hwnd(8), focus: Some(Hwnd(9)) })
    );
    assert_eq!(
        restore_last_regular_foreground(last, true, false, false),
        Some(FocusRestore { foreground: Hwnd(8), focus: None })
    );
    assert_eq!(restore_last_regular_foreground(last, false, false, true), None);
    assert_eq!(restore_last_regular_foreground(last, true, true, true), None);
    assert_eq!(restore_last_regular_foreground(None, true, false, true), None);
}

#[test]
fn foreground_changes_and_input_attachment() {
    assert_eq!(foreground_event_action(0, true), ForegroundAction::Ignore);
    assert_eq!(foreground_event_action(5, true), ForegroundAction::RestorePrevious);
    assert_eq!(foreground_event_action(5, false), ForegroundAction::Remember(Hwnd(5)));
    assert!(should_attach_input(1, 2));
    assert!(!should_attach_input(1, 1));
    assert!(!should_attach_input(1, 0));
}

#[test]
fn os_result_interpretation() {

    assert_eq!(set_parent_outcome(true, 0), Ok(()));
    assert_eq!(set_parent_outcome(false, 5), Ok(()));
    assert_eq!(set_parent_outcome(true, 1400), Err(1400));
    assert_eq!(
        set_parent_failure_message(ParentChange { child: Hwnd(3), parent: Hwnd(-4) }, "Invalid window handle."),
        "SetParent failed for 3 -> -4: Invalid window handle."
    );
}

#[test]
fn window_long_and_messages() {
    assert_eq!(window_long_outcome(0, 0), Ok(0));
    assert_eq!(window_long_outcome(0x100, 87), Ok(0x100));
    assert_eq!(window_long_outcome(0, 87), Err(87));
    assert_eq!(
        window_call_failure_message("GetWindowLongPtrW(GWL_STYLE)", 12, "The parameter is incorrect."),
        "GetWindowLongPtrW(GWL_STYLE) failed for 12: The parameter is incorrect."
    );
    assert_eq!(last_os_error("EnumWindows failed", "Access is denied."), "EnumWindows failed: Access is denied.");
    assert!(call_succeeded(1));
    assert!(!call_succeeded(0));
}

#[test]
fn foreground_hook_installs_once() {
    let mut hook = ForegroundHook::new();
    assert!(hook.needs_install());
    assert!(!hook.record(0));
    assert!(hook.needs_install());
    assert!(hook.record(77));
    assert!(!hook.needs_install());
    assert_eq!(hook.handle, Some(77));
}
