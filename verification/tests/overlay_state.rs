use window_dock::models::overlay::default_minimize_size;
use window_dock::models::{DockPanelBounds, OverlayConfig, OverlayConfigFile, OverlaySize};
use window_dock::state::overlay_state_store::{
    clamp_bounds, clamp_i32, is_size_within_limits, merge_overlay_config, minimize_bounds,
};
use window_dock::state::OverlayStateStore;

fn bounds(x: i32, y: i32, width: i32, height: i32) -> DockPanelBounds {
    DockPanelBounds { x, y, width, height }
}

fn size(width: i32, height: i32) -> OverlaySize {
    OverlaySize { width, height }
}

fn config(id: &str, visible: bool, b: DockPanelBounds) -> OverlayConfig {
    OverlayConfig {
        id: id.to_string(),
        route: format!("/overlays/{id}"),
        visible,
        bounds: b,
        min_size: size(100, 50),
        max_size: size(800, 600),
        minimize_size: size(200, 42),
    }
}

fn table(entries: Vec<OverlayConfig>) -> OverlayConfigFile {
    let mut file = OverlayConfigFile::new();
    for entry in entries {
        file.insert(entry.id.clone(), entry);
    }
    file
}

fn defaults() -> OverlayConfigFile {
    table(vec![
        config("chat", true, bounds(10, 10, 300, 200)),
        config("stats", false, bounds(400, 10, 250, 150)),
    ])
}

#[test]
fn default_minimize_size_is_fixed() {
    assert_eq!(default_minimize_size(), size(200, 42));
}

#[test]
fn clamp_i32_matches_std_clamp() {
    for value in [-1000, -1, 0, 1, 49, 50, 51, 599, 600, 601, i32::MAX, i32::MIN] {
        assert_eq!(clamp_i32(value, 50, 600), value.clamp(50, 600));
    }
}

#[test]
fn clamp_bounds_limits_size_and_keeps_place() {
    let clamped = clamp_bounds(bounds(-5, 7, 2000, 10), size(100, 50), size(800, 600));
    assert_eq!(clamped, bounds(-5, 7, 800, 50));
    let inside = clamp_bounds(bounds(1, 2, 300, 300), size(100, 50), size(800, 600));
    assert_eq!(inside, bounds(1, 2, 300, 300));
}

#[test]
fn minimize_bounds_uses_fixed_size() {
    assert_eq!(minimize_bounds(bounds(30, 40, 500, 500), size(200, 42)), bounds(30, 40, 200, 42));
}

#[test]
fn size_limit_check_is_inclusive() {
    assert!(is_size_within_limits(bounds(0, 0, 100, 50), size(100, 50), size(800, 600)));
    assert!(is_size_within_limits(bounds(0, 0, 800, 600), size(100, 50), size(800, 600)));
    assert!(!is_size_within_limits(bounds(0, 0, 99, 50), size(100, 50), size(800, 600)));
    assert!(!is_size_within_limits(bounds(0, 0, 100, 601), size(100, 50), size(800, 600)));
}

#[test]
fn table_insert_replaces_in_place() {
    let mut file = defaults();
    assert_eq!(file.len(), 2);
    file.insert("chat".to_string(), config("chat", false, bounds(1, 1, 100, 50)));
    assert_eq!(file.len(), 2);
    assert_eq!(file.key_at(0), "chat");
    assert!(!file.get("chat").unwrap().visible);
    file.insert("extra".to_string(), config("extra", true, bounds(1, 1, 100, 50)));
    assert_eq!(file.len(), 3);
    assert_eq!(file.find("extra"), Some(2));
    assert_eq!(file.find("missing"), None);
}

#[test]
fn merge_keeps_saved_visibility_and_fitting_bounds() {
    let saved = table(vec![
        config("chat", false, bounds(50, 60, 400, 300)),
        config("stats", true, bounds(5, 5, 5000, 150)),
        config("retired", true, bounds(0, 0, 100, 100)),
    ]);
    let merged = merge_overlay_config(defaults(), saved);
    assert_eq!(merged.len(), 2);
    let chat = merged.get("chat").unwrap();
    assert!(!chat.visible);
    assert_eq!(chat.bounds, bounds(50, 60, 400, 300));
    let stats = merged.get("stats").unwrap();
    assert!(stats.visible);
    assert_eq!(stats.bounds, bounds(400, 10, 250, 150));
    assert!(merged.get("retired").is_none());
}

#[test]
fn merge_keeps_default_definitions_authoritative() {
    let mut saved_chat = config("chat", true, bounds(1, 2, 300, 200));
    saved_chat.route = "/somewhere/else".to_string();
    saved_chat.min_size = size(1, 1);
    saved_chat.max_size = size(10_000, 10_000);
    saved_chat.minimize_size = size(1, 1);
    let merged = merge_overlay_config(defaults(), table(vec![saved_chat]));
    let chat = merged.get("chat").unwrap();
    assert_eq!(chat.route, "/overlays/chat");
    assert_eq!(chat.min_size, size(100, 50));
    assert_eq!(chat.max_size, size(800, 600));
    assert_eq!(chat.minimize_size, size(200, 42));
    assert_eq!(chat.bounds, bounds(1, 2, 300, 200));
}

#[test]
fn merge_reload_is_stable() {
    let saved = table(vec![
        config("chat", false, bounds(50, 60, 400, 300)),
        config("stats", true, bounds(5, 5, 5000, 150)),
    ]);
    let first = merge_overlay_config(defaults(), saved);
    let rewritten = table((0..first.len()).map(|i| first.config_at(i).clone()).collect());
    let second = merge_overlay_config(defaults(), rewritten);
    for i in 0..first.len() {
        let a = first.config_at(i);
        let b = second.config_at(i);
        assert_eq!(first.key_at(i), second.key_at(i));
        assert_eq!(a.visible, b.visible);
        assert_eq!(a.bounds, b.bounds);
    }
}

#[test]
fn load_without_saved_file_uses_defaults() {
    let store = OverlayStateStore::load("/tmp/overlay.json".to_string(), defaults(), None);
    assert_eq!(store.path, "/tmp/overlay.json");
    assert_eq!(store.overlays.len(), 2);
    assert_eq!(store.overlay("chat").unwrap().bounds, bounds(10, 10, 300, 200));
}

#[test]
fn load_with_saved_file_merges() {
    let saved = table(vec![config("stats", true, bounds(9, 9, 300, 300))]);
    let store = OverlayStateStore::load("p".to_string(), defaults(), Some(saved));
    let stats = store.overlay("stats").unwrap();
    assert!(stats.visible);
    assert_eq!(stats.bounds, bounds(9, 9, 300, 300));
}

#[test]
fn unknown_overlay_is_an_error() {
    let store = OverlayStateStore::load("p".to_string(), defaults(), None);
    assert_eq!(store.overlay("nope").unwrap_err(), "Unknown overlay: nope");
}

#[test]
fn visible_overlays_lists_shown_ones_in_order() {
    let store = OverlayStateStore::load(
        "p".to_string(),
        table(vec![
            config("a", true, bounds(0, 0, 100, 50)),
            config("b", false, bounds(0, 0, 100, 50)),
            config("c", true, bounds(0, 0, 100, 50)),
        ]),
        None,
    );
    let ids: Vec<String> = store.visible_overlays().into_iter().map(|c| c.id).collect();
    assert_eq!(ids, vec!["a".to_string(), "c".to_string()]);
}

#[test]
fn move_overlay_clamps_and_shows() {
    let mut store = OverlayStateStore::load("p".to_string(), defaults(), None);
    let moved = store.move_overlay("stats", bounds(-20, 30, 5, 9000), false).unwrap();
    assert!(moved.visible);
    assert_eq!(moved.bounds, bounds(-20, 30, 100, 600));
    assert_eq!(store.overlay("stats").unwrap().bounds, moved.bounds);
    assert!(store.overlay("stats").unwrap().visible);
    assert_eq!(store.overlay("chat").unwrap().bounds, bounds(10, 10, 300, 200));
}

#[test]
fn move_overlay_minimized_takes_fixed_size() {
    let mut store = OverlayStateStore::load("p".to_string(), defaults(), None);
    let moved = store.move_overlay("chat", bounds(70, 80, 700, 500), true).unwrap();
    assert_eq!(moved.bounds, bounds(70, 80, 200, 42));
}

#[test]
fn move_unknown_overlay_is_an_error_and_changes_nothing() {
    let mut store = OverlayStateStore::load("p".to_string(), defaults(), None);
    let error = store.move_overlay("ghost", bounds(0, 0, 100, 100), false).unwrap_err();
    assert_eq!(error, "Unknown overlay: ghost");
    assert_eq!(store.overlays.len(), 2);
    assert_eq!(store.overlay("chat").unwrap().bounds, bounds(10, 10, 300, 200));
}

#[test]
fn moved_bounds_survive_reload() {
    let mut store = OverlayStateStore::load("p".to_string(), defaults(), None);
    store.move_overlay("stats", bounds(123, 45, 640, 480), false).unwrap();
    let written = table((0..store.overlays.len()).map(|i| store.overlays.config_at(i).clone()).collect());
    let reloaded = OverlayStateStore::load("p".to_string(), defaults(), Some(written));
    let stats = reloaded.overlay("stats").unwrap();
    assert!(stats.visible);
    assert_eq!(stats.bounds, bounds(123, 45, 640, 480));
}

#[test]
fn minimized_size_outside_limits_is_not_kept_on_reload() {
    let mut store = OverlayStateStore::load("p".to_string(), defaults(), None);
    store.move_overlay("chat", bounds(5, 6, 300, 200), true).unwrap();
    let written = table((0..store.overlays.len()).map(|i| store.overlays.config_at(i).clone()).collect());
    let reloaded = OverlayStateStore::load("p".to_string(), defaults(), Some(written));
    // 200x42 is below the 100x50 minimum, so the default bounds come back.
    assert_eq!(reloaded.overlay("chat").unwrap().bounds, bounds(10, 10, 300, 200));
}
