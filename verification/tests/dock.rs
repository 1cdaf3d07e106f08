use window_dock::commands::dock_plan::{
    advance_plan, begin_plan, finish_dock, next_action, plan_dock, restore_docked_snapshot, PlanAction,
    PlanStep,
    WindowOp,
};
use window_dock::commands::windows::{
    capture_snapshot, centered_child_virtual_bounds, clamp_child_dimension, dock_window, finish_position,
    finish_undock,
    docked_window_info, ensure_valid_hwnd, list_docked_windows, list_windows,
    position_docked_window, resize_docked_window, sync_docked_window_bounds, undock_all_windows,
    undock_window, viewport_child_bounds, virtual_child_bounds, BoundsObservation,
};
use window_dock::models::{DockPanelBounds, DockStateSnapshot, WindowInfo, WindowRect};
use window_dock::state::DockStateStore;
use window_dock::win32::Hwnd;

fn bounds(x: i32, y: i32, width: i32, height: i32) -> DockPanelBounds {
    DockPanelBounds { x, y, width, height }
}

fn info(hwnd: isize, title: &str) -> WindowInfo {
    WindowInfo {
        hwnd,
        title: title.to_string(),
        class_name: Some("Notepad".to_string()),
        process_id: Some(4242),
    }
}

fn snapshot(hwnd: isize, virtual_bounds: DockPanelBounds) -> DockStateSnapshot {
    DockStateSnapshot {
        hwnd,
        original_parent: 0,
        original_style: 0x14cf_0000,
        original_ex_style: 0x0000_0100,
        original_rect: WindowRect { left: 100, top: 50, right: 900, bottom: 650 },
        virtual_bounds,
    }
}

fn store_with(snapshots: &[DockStateSnapshot]) -> DockStateStore {
    let mut store = DockStateStore::default();
    for s in snapshots {
        store.insert(*s);
    }
    store
}

#[test]
fn hwnd_new_rejects_null() {
    assert_eq!(Hwnd::new(0).unwrap_err(), "HWND must not be null.");
    assert_eq!(Hwnd::new(-17).unwrap(), Hwnd(-17));
}

#[test]
fn ninety_percent_cap_matches_float_rounding() {
    for viewport in -2000..2000 {
        let expected = ((viewport as f64) * 0.9).round() as i32;
        assert_eq!(clamp_child_dimension(i32::MAX, viewport), expected.max(1), "viewport {viewport}");
    }
    for viewport in [i32::MAX, i32::MIN, i32::MAX - 5, 1_000_000_005, -1_000_000_005] {
        let expected = ((viewport as f64) * 0.9).round() as i32;
        assert_eq!(clamp_child_dimension(i32::MAX, viewport), expected.max(1));
    }
}

#[test]
fn child_dimension_is_capped_and_positive() {
    assert_eq!(clamp_child_dimension(1000, 800), 720);
    assert_eq!(clamp_child_dimension(500, 800), 500);
    assert_eq!(clamp_child_dimension(0, 800), 1);
    assert_eq!(clamp_child_dimension(-5, 800), 1);
    assert_eq!(clamp_child_dimension(10, 5), 5);
    assert_eq!(clamp_child_dimension(10, -5), 1);
}

#[test]
fn new_window_is_centered_in_camera() {
    let camera = bounds(0, 0, 1000, 800);
    assert_eq!(centered_child_virtual_bounds(camera, 1200, 500), Ok(bounds(50, 150, 900, 500)));
    let moved_camera = bounds(-300, 40, 1001, 801);
    assert_eq!(
        centered_child_virtual_bounds(moved_camera, 400, 300),
        Ok(bounds(-300 + 300, 40 + 250, 400, 300))
    );
    // A camera narrower than a pixel still yields a one-pixel window; the offset
    // is halved toward zero.
    assert_eq!(centered_child_virtual_bounds(bounds(10, 10, -4, 0), 50, 50), Ok(bounds(8, 10, 1, 1)));
}

#[test]
fn viewport_projection_round_trips() {
    let virtual_bounds = bounds(1500, -200, 640, 480);
    let camera = bounds(1000, -500, 1920, 1080);
    let viewport = viewport_child_bounds(virtual_bounds, camera);
    assert_eq!(viewport, bounds(500, 300, 640, 480));
    assert_eq!(virtual_child_bounds(camera, viewport), virtual_bounds);
}

#[test]
fn list_windows_drops_container() {
    let listed = list_windows(vec![info(1, "a"), info(2, "container"), info(3, "c")], Hwnd(2));
    let hwnds: Vec<isize> = listed.iter().map(|w| w.hwnd).collect();
    assert_eq!(hwnds, vec![1, 3]);
}

#[test]
fn docked_window_info_falls_back_to_handle_title() {
    let named = docked_window_info(info(77, "Editor"), bounds(1, 2, 3, 4));
    assert_eq!(named.title, "Editor");
    assert_eq!(named.class_name.as_deref(), Some("Notepad"));
    assert_eq!(named.process_id, Some(4242));
    assert_eq!(named.virtual_bounds, bounds(1, 2, 3, 4));
    assert_eq!(docked_window_info(info(77, ""), bounds(0, 0, 1, 1)).title, "HWND 77");
    assert_eq!(docked_window_info(info(-9, " \t\u{3000}\n"), bounds(0, 0, 1, 1)).title, "HWND -9");
}

#[test]
fn list_docked_windows_skips_gone_windows() {
    let store = store_with(&[snapshot(10, bounds(1, 1, 10, 10)), snapshot(20, bounds(2, 2, 20, 20))]);
    let listed = list_docked_windows(&store, &vec![None, Some(info(20, "B"))]);
    assert_eq!(listed.len(), 1);
    assert_eq!(listed[0].hwnd, 20);
    assert_eq!(listed[0].virtual_bounds, bounds(2, 2, 20, 20));
}

#[test]
fn dock_window_decisions() {
    let store = store_with(&[snapshot(10, bounds(1, 1, 10, 10))]);
    let container = Hwnd(99);
    assert_eq!(dock_window(&store, container, 0, true).unwrap_err(), "HWND must not be null.");
    assert_eq!(
        dock_window(&store, container, 99, true).unwrap_err(),
        "Cannot dock the Tauri container window into itself."
    );
    assert_eq!(dock_window(&store, container, 42, false).unwrap_err(), "Invalid HWND: 42");
    assert_eq!(dock_window(&store, container, 10, true), Ok(None));
    assert_eq!(dock_window(&store, container, 42, true), Ok(Some(Hwnd(42))));
}

#[test]
fn validation_errors_name_the_handle() {
    assert_eq!(ensure_valid_hwnd(Hwnd(-3), false).unwrap_err(), "Invalid HWND: -3");
    assert!(ensure_valid_hwnd(Hwnd(3), true).is_ok());
    assert_eq!(resize_docked_window(0, true).unwrap_err(), "HWND must not be null.");
    assert_eq!(resize_docked_window(8, false).unwrap_err(), "Invalid HWND: 8");
    assert_eq!(resize_docked_window(8, true), Ok(Hwnd(8)));
}

#[test]
fn position_requires_docked_live_window() {
    let store = store_with(&[snapshot(10, bounds(1, 1, 10, 10))]);
    assert_eq!(position_docked_window(&store, 0, true).unwrap_err(), "HWND must not be null.");
    assert_eq!(position_docked_window(&store, 10, false).unwrap_err(), "Invalid HWND: 10");
    assert_eq!(position_docked_window(&store, 5, true).unwrap_err(), "No dock state found for HWND 5");
    assert_eq!(position_docked_window(&store, 10, true), Ok(Hwnd(10)));
}

#[test]
fn store_tracks_docked_windows() {
    let mut store = DockStateStore::new();
    assert_eq!(store.len(), 0);
    store.insert(snapshot(10, bounds(1, 1, 10, 10)));
    store.insert(snapshot(20, bounds(2, 2, 20, 20)));
    assert!(store.contains(10));
    assert_eq!(store.position_of(20), Some(1));
    store.set_virtual_bounds(20, bounds(7, 7, 70, 70));
    assert_eq!(store.get(20).unwrap().virtual_bounds, bounds(7, 7, 70, 70));
    store.set_virtual_bounds(30, bounds(0, 0, 1, 1));
    assert_eq!(store.len(), 2);
    store.insert(snapshot(10, bounds(9, 9, 9, 9)));
    assert_eq!(store.len(), 2);
    assert_eq!(store.snapshot_at(0).virtual_bounds, bounds(9, 9, 9, 9));
    assert_eq!(store.remove(10).unwrap().hwnd, 10);
    assert!(!store.contains(10));
    assert_eq!(store.remove(10), None);
    assert_eq!(store.snapshot_at(0).hwnd, 20);
}

#[test]
fn dock_then_undock_restores_store() {
    let mut store = store_with(&[snapshot(10, bounds(1, 1, 10, 10))]);
    let docked = snapshot(42, bounds(5, 5, 50, 50));
    store.insert(docked);
    let found = undock_window(&store, 42).unwrap();
    assert_eq!(found, docked);
    store.remove(42);
    assert_eq!(store.len(), 1);
    assert!(store.contains(10));
    assert_eq!(undock_window(&store, 42).unwrap_err(), "No dock state found for HWND 42");
    assert_eq!(undock_window(&store, 0).unwrap_err(), "HWND must not be null.");
}

#[test]
fn undock_all_drains_in_docking_order() {
    let mut store = store_with(&[snapshot(30, bounds(0, 0, 1, 1)), snapshot(10, bounds(0, 0, 1, 1))]);
    let drained = undock_all_windows(&mut store);
    let hwnds: Vec<isize> = drained.iter().map(|s| s.hwnd).collect();
    assert_eq!(hwnds, vec![30, 10]);
    assert_eq!(store.len(), 0);
}

#[test]
fn capture_snapshot_records_original_state() {
    let rect = WindowRect { left: 1, top: 2, right: 3, bottom: 4 };
    let s = capture_snapshot(Hwnd(5), rect, bounds(6, 7, 8, 9), Hwnd(11), 12, 13);
    assert_eq!(
        s,
        DockStateSnapshot {
            hwnd: 5,
            original_parent: 11,
            original_style: 12,
            original_ex_style: 13,
            original_rect: rect,
            virtual_bounds: bounds(6, 7, 8, 9),
        }
    );
}

#[test]
fn sync_updates_read_windows() {
    let mut store = store_with(&[
        snapshot(10, bounds(1, 1, 10, 10)),
        snapshot(20, bounds(2, 2, 20, 20)),
        snapshot(30, bounds(3, 3, 30, 30)),
    ]);
    let camera = bounds(100, 200, 1920, 1080);
    let observations = vec![
        BoundsObservation::Read { viewport_bounds: bounds(5, 6, 70, 80), window: info(10, "") },
        BoundsObservation::Gone,
        BoundsObservation::Read { viewport_bounds: bounds(-5, -6, 7, 8), window: info(30, "C") },
    ];
    let synced = sync_docked_window_bounds(&mut store, camera, &observations).unwrap();
    assert_eq!(synced.len(), 2);
    assert_eq!(synced[0].title, "HWND 10");
    assert_eq!(synced[0].virtual_bounds, bounds(105, 206, 70, 80));
    assert_eq!(synced[1].virtual_bounds, bounds(95, 194, 7, 8));
    assert_eq!(store.get(10).unwrap().virtual_bounds, bounds(105, 206, 70, 80));
    assert_eq!(store.get(20).unwrap().virtual_bounds, bounds(2, 2, 20, 20));
    assert_eq!(store.get(30).unwrap().virtual_bounds, bounds(95, 194, 7, 8));
}

#[test]
fn sync_stops_at_first_failure() {
    let mut store = store_with(&[
        snapshot(10, bounds(1, 1, 10, 10)),
        snapshot(20, bounds(2, 2, 20, 20)),
        snapshot(30, bounds(3, 3, 30, 30)),
    ]);
    let observations = vec![
        BoundsObservation::Read { viewport_bounds: bounds(0, 0, 5, 5), window: info(10, "A") },
        BoundsObservation::Failed("ScreenToClient(top-left) failed".to_string()),
        BoundsObservation::Read { viewport_bounds: bounds(0, 0, 9, 9), window: info(30, "C") },
    ];
    let error = sync_docked_window_bounds(&mut store, bounds(0, 0, 100, 100), &observations).unwrap_err();
    assert_eq!(error, "ScreenToClient(top-left) failed");
    assert_eq!(store.get(10).unwrap().virtual_bounds, bounds(0, 0, 5, 5));
    assert_eq!(store.get(30).unwrap().virtual_bounds, bounds(3, 3, 30, 30));
}

#[test]
fn dock_plan_steps_and_unwinding() {
    let s = snapshot(42, bounds(1500, 300, 640, 480));
    let container = Hwnd(7);
    let plan = plan_dock(container, s, bounds(1000, 100, 1920, 1080));
    assert_eq!(plan.snapshot, s);
    let t = Hwnd(42);
    let restore_style = WindowOp::RestoreStyle { hwnd: t, style: s.original_style, ex_style: s.original_ex_style };
    let ops: Vec<(WindowOp, bool, Vec<WindowOp>)> =
        plan.steps.iter().map(|step| (step.op, step.required, step.undo.clone())).collect();
    assert_eq!(
        ops,
        vec![
            (WindowOp::ApplyNoActivate(container), true, vec![]),
            (WindowOp::ApplyChildStyle(t), true, vec![restore_style]),
            (WindowOp::ApplyNoActivate(t), true, vec![restore_style]),
            (WindowOp::SetParent { child: t, parent: container }, true, vec![restore_style]),
            (WindowOp::InstallMouseNoActivate(t), false, vec![]),
            (WindowOp::RegisterFocusGuard(t), false, vec![]),
            (
                WindowOp::SetPosition { hwnd: t, bounds: bounds(500, 200, 640, 480) },
                true,
                vec![
                    WindowOp::UnregisterFocusGuard(t),
                    WindowOp::UninstallNoActivate(t),
                    WindowOp::RestoreParent { child: t, parent: Hwnd(0) },
                    restore_style,
                ]
            ),
        ]
    );
}

#[test]
fn restore_plan_puts_back_snapshot() {
    let s = snapshot(42, bounds(0, 0, 10, 10));
    let steps = restore_docked_snapshot(&s).unwrap();
    let t = Hwnd(42);
    let ops: Vec<(WindowOp, bool)> = steps.iter().map(|step| (step.op, step.required)).collect();
    assert_eq!(
        ops,
        vec![
            (WindowOp::UninstallNoActivate(t), false),
            (WindowOp::UnregisterFocusGuard(t), false),
            (WindowOp::RestoreParent { child: t, parent: Hwnd(0) }, true),
            (WindowOp::RestoreStyle { hwnd: t, style: s.original_style, ex_style: s.original_ex_style }, true),
            (WindowOp::RestoreRect { hwnd: t, rect: s.original_rect }, true),
        ]
    );
    assert!(steps.iter().all(|step| step.undo.is_empty()));
    assert_eq!(restore_docked_snapshot(&snapshot(0, bounds(0, 0, 1, 1))).err().unwrap(), "HWND must not be null.");
}

fn run_with(steps: &Vec<PlanStep>, failing: &[(WindowOp, &str)]) -> (Vec<String>, Result<(), String>) {
    let mut trace = Vec::new();
    let mut state = begin_plan(steps);
    loop {
        match next_action(steps, &state) {
            PlanAction::Perform(op) => {
                trace.push(format!("perform {op:?}"));
                let outcome = match failing.iter().find(|(f, _)| *f == op) {
                    Some((_, error)) => Err(error.to_string()),
                    None => Ok(()),
                };
                state = advance_plan(steps, state, outcome);
            }
            PlanAction::Report { op, error } => {
                trace.push(format!("report {op:?}: {error}"));
                state = advance_plan(steps, state, Ok(()));
            }
            PlanAction::Undo(op) => {
                trace.push(format!("undo {op:?}"));
                state = advance_plan(steps, state, Err("ignored".to_string()));
            }
            PlanAction::Finish(result) => return (trace, result),
        }
    }
}

#[test]
fn plan_run_succeeds_when_every_change_succeeds() {
    let plan = plan_dock(Hwnd(7), snapshot(42, bounds(0, 0, 10, 10)), bounds(0, 0, 100, 100));
    let (trace, result) = run_with(&plan.steps, &[]);
    assert_eq!(result, Ok(()));
    assert_eq!(trace.len(), 7);
    assert!(trace.iter().all(|line| line.starts_with("perform")));
}

#[test]
fn plan_run_reports_optional_failures_and_goes_on() {
    let plan = plan_dock(Hwnd(7), snapshot(42, bounds(0, 0, 10, 10)), bounds(0, 0, 100, 100));
    let (trace, result) = run_with(&plan.steps, &[(WindowOp::InstallMouseNoActivate(Hwnd(42)), "no subclass")]);
    assert_eq!(result, Ok(()));
    assert_eq!(trace.len(), 8);
    assert_eq!(trace[5], "report InstallMouseNoActivate(Hwnd(42)): no subclass");
}

#[test]
fn plan_run_unwinds_failed_placement() {
    let s = snapshot(42, bounds(50, 60, 10, 10));
    let plan = plan_dock(Hwnd(7), s, bounds(0, 0, 100, 100));
    let placement = WindowOp::SetPosition { hwnd: Hwnd(42), bounds: bounds(50, 60, 10, 10) };
    let (trace, result) = run_with(&plan.steps, &[(placement, "SetWindowPos failed")]);
    assert_eq!(result, Err("SetWindowPos failed".to_string()));
    assert_eq!(
        trace[7..].to_vec(),
        vec![
            "undo UnregisterFocusGuard(Hwnd(42))".to_string(),
            "undo UninstallNoActivate(Hwnd(42))".to_string(),
            "undo RestoreParent { child: Hwnd(42), parent: Hwnd(0) }".to_string(),
            format!("undo {:?}", WindowOp::RestoreStyle { hwnd: Hwnd(42), style: s.original_style, ex_style: s.original_ex_style }),
        ]
    );
}

#[test]
fn plan_run_stops_at_failed_reparenting() {
    let plan = plan_dock(Hwnd(7), snapshot(42, bounds(0, 0, 10, 10)), bounds(0, 0, 100, 100));
    let (trace, result) = run_with(
        &plan.steps,
        &[(WindowOp::SetParent { child: Hwnd(42), parent: Hwnd(7) }, "Invalid HWND: 7")],
    );
    assert_eq!(result, Err("Invalid HWND: 7".to_string()));
    assert_eq!(trace.len(), 5);
    assert!(trace[4].starts_with("undo RestoreStyle"));
}

#[test]
fn finish_dock_records_only_on_success() {

    let s = snapshot(42, bounds(0, 0, 10, 10));
    let plan = plan_dock(Hwnd(7), s, bounds(0, 0, 100, 100));
    let mut store = store_with(&[snapshot(10, bounds(1, 1, 10, 10))]);
    assert_eq!(finish_dock(&mut store, &plan, Err("SetWindowPos failed".to_string())), Err("SetWindowPos failed".to_string()));
    assert_eq!(store.len(), 1);
    assert!(!store.contains(42));
    assert_eq!(finish_dock(&mut store, &plan, Ok(())), Ok(()));
    assert_eq!(store.get(42), Some(s));
}

#[test]
fn finish_undock_keeps_snapshot_on_failed_restore() {
    let s = snapshot(42, bounds(0, 0, 10, 10));
    let mut store = store_with(&[s]);
    assert_eq!(finish_undock(&mut store, 42, Err("SetParent failed".to_string())), Err("SetParent failed".to_string()));
    assert_eq!(store.get(42), Some(s));
    assert_eq!(finish_undock(&mut store, 42, Ok(())), Ok(()));
    assert!(!store.contains(42));
}

#[test]
fn finish_position_updates_bounds_only_after_move() {
    let mut store = store_with(&[snapshot(42, bounds(0, 0, 10, 10))]);
    assert!(finish_position(&mut store, 42, bounds(5, 5, 50, 50), Err("moved nowhere".to_string())).is_err());
    assert_eq!(store.get(42).unwrap().virtual_bounds, bounds(0, 0, 10, 10));
    assert_eq!(finish_position(&mut store, 42, bounds(5, 5, 50, 50), Ok(())), Ok(()));
    assert_eq!(store.get(42).unwrap().virtual_bounds, bounds(5, 5, 50, 50));
    assert_eq!(finish_position(&mut store, 99, bounds(1, 1, 1, 1), Ok(())), Ok(()));
    assert_eq!(store.len(), 1);
}

#[test]
fn dock_then_undock_commands_restore_store() {
    let before = store_with(&[snapshot(10, bounds(1, 1, 10, 10))]);
    let mut store = store_with(&[snapshot(10, bounds(1, 1, 10, 10))]);
    let s = snapshot(42, bounds(0, 0, 10, 10));
    let plan = plan_dock(Hwnd(7), s, bounds(0, 0, 100, 100));
    finish_dock(&mut store, &plan, Ok(())).unwrap();
    finish_undock(&mut store, 42, Ok(())).unwrap();
    assert_eq!(store.len(), before.len());
    assert_eq!(store.snapshot_at(0), before.snapshot_at(0));
}

#[test]
fn dock_place_sync_undock_restores_saved_state() {
    let other = snapshot(10, bounds(1, 1, 10, 10));
    let mut store = store_with(&[other]);
    let s = snapshot(42, bounds(0, 0, 10, 10));
    let plan = plan_dock(Hwnd(7), s, bounds(0, 0, 100, 100));
    finish_dock(&mut store, &plan, Ok(())).unwrap();

    // Placements of the docked window, one of them failing.
    finish_position(&mut store, 42, bounds(30, 40, 50, 60), Ok(())).unwrap();
    assert!(finish_position(&mut store, 42, bounds(9, 9, 9, 9), Err("moved nowhere".to_string())).is_err());
    assert_eq!(store.get(42).unwrap().virtual_bounds, bounds(30, 40, 50, 60));

    // A sync that reads only the docked window.
    let camera = bounds(100, 100, 800, 600);
    let observations = vec![
        BoundsObservation::Gone,
        BoundsObservation::Read { viewport_bounds: bounds(5, 5, 50, 60), window: info(42, "Pad") },
    ];
    sync_docked_window_bounds(&mut store, camera, &observations).unwrap();
    assert_eq!(store.get(42).unwrap().virtual_bounds, bounds(105, 105, 50, 60));

    // The undock restores what was recorded at docking, whatever the moves.
    let to_restore = undock_window(&store, 42).unwrap();
    assert_eq!(to_restore, DockStateSnapshot { virtual_bounds: bounds(105, 105, 50, 60), ..s });
    let restore = restore_docked_snapshot(&to_restore).unwrap();
    let original = restore_docked_snapshot(&s).unwrap();
    assert_eq!(format!("{:?}", restore), format!("{:?}", original));
    finish_undock(&mut store, 42, Ok(())).unwrap();
    assert_eq!(store.len(), 1);
    assert_eq!(store.get(10), Some(other));
    assert!(!store.contains(42));
}
