use vstd::prelude::*;

use crate::models::overlay::{
    entries_map, has_key, key_index, keys_distinct, lemma_entries_map_at, OverlayEntry,
};
use crate::models::{DockPanelBounds, OverlayConfig, OverlayConfigFile, OverlayConfigView, OverlaySize};
use crate::text::concat_str;

verus! {

/// `value` brought into `[lo, hi]`, as `Ord::clamp` computes it.
pub open spec fn clamp_spec(value: i32, lo: i32, hi: i32) -> i32 {
    if value < lo {
        lo
    } else if value > hi {
        hi
    } else {
        value
    }
}

/// The size of `bounds` lies within `[min_size, max_size]` in both dimensions.
pub open spec fn size_within_limits(
    bounds: DockPanelBounds,
    min_size: OverlaySize,
    max_size: OverlaySize,
) -> bool {
    &&& min_size.width <= bounds.width <= max_size.width
    &&& min_size.height <= bounds.height <= max_size.height
}

/// The minimum size of an overlay does not exceed its maximum size.
pub open spec fn limits_ordered(config: OverlayConfigView) -> bool {
    &&& config.min_size.width <= config.max_size.width
    &&& config.min_size.height <= config.max_size.height
}

/// `bounds` at the same place with its size clamped to the limits.
pub open spec fn clamped_bounds(
    bounds: DockPanelBounds,
    min_size: OverlaySize,
    max_size: OverlaySize,
) -> DockPanelBounds {
    DockPanelBounds {
        x: bounds.x,
        y: bounds.y,
        width: clamp_spec(bounds.width, min_size.width, max_size.width),
        height: clamp_spec(bounds.height, min_size.height, max_size.height),
    }
}

/// `bounds` at the same place with the fixed minimized size.
pub open spec fn minimized_bounds(bounds: DockPanelBounds, minimize_size: OverlaySize) -> DockPanelBounds {
    DockPanelBounds {
        x: bounds.x,
        y: bounds.y,
        width: minimize_size.width,
        height: minimize_size.height,
    }
}

/// An overlay after a move request: shown, at the requested place, with the
/// requested size clamped to its limits, or its minimized size when minimized.
pub open spec fn moved_overlay(
    config: OverlayConfigView,
    bounds: DockPanelBounds,
    is_minimized: bool,
) -> OverlayConfigView {
    OverlayConfigView {
        visible: true,
        bounds: if is_minimized {
            minimized_bounds(bounds, config.minimize_size)
        } else {
            clamped_bounds(bounds, config.min_size, config.max_size)
        },
        ..config
    }
}

/// A default overlay definition combined with what a saved file holds for it:
/// the saved visibility, and the saved bounds when their size fits the default limits.
/// Everything else comes from the default.
pub open spec fn merged_overlay(
    default_overlay: OverlayConfigView,
    saved_overlay: Option<OverlayConfigView>,
) -> OverlayConfigView {
    match saved_overlay {
        Some(saved) => OverlayConfigView {
            visible: saved.visible,
            bounds: if size_within_limits(
                saved.bounds,
                default_overlay.min_size,
                default_overlay.max_size,
            ) {
                saved.bounds
            } else {
                default_overlay.bounds
            },
            ..default_overlay
        },
        None => default_overlay,
    }
}

/// What `saved` holds under `key`, if anything.
pub open spec fn lookup(saved: Map<Seq<char>, OverlayConfigView>, key: Seq<char>) -> Option<
    OverlayConfigView,
> {
    if saved.contains_key(key) {
        Some(saved[key])
    } else {
        None
    }
}

/// The default entries, each merged with the saved configuration under its key.
pub open spec fn merged_entries(
    defaults: Seq<OverlayEntry>,
    saved: Map<Seq<char>, OverlayConfigView>,
) -> Seq<OverlayEntry> {
    defaults.map_values(|e: OverlayEntry| (e.0, merged_overlay(e.1, lookup(saved, e.0))))
}

/// The configurations of the shown overlays, in table order.
pub open spec fn visible_configs(s: Seq<OverlayEntry>) -> Seq<OverlayConfigView>
    decreases s.len(),
{
    if s.len() == 0 {
        Seq::empty()
    } else {
        let rest = visible_configs(s.drop_last());
        if s.last().1.visible {
            rest.push(s.last().1)
        } else {
            rest
        }
    }
}

/// The message of a request for an overlay that the table does not hold.
pub open spec fn unknown_overlay_message(id: Seq<char>) -> Seq<char> {
    "Unknown overlay: "@ + id
}

/// Clamps `value` into `[lo, hi]`; the bounds must be ordered, as `Ord::clamp` demands.
pub fn clamp_i32(value: i32, lo: i32, hi: i32) -> (r: i32)
    requires
        lo <= hi,
    ensures
        r == clamp_spec(value, lo, hi),
        lo <= r <= hi,
{
    if value < lo {
        lo
    } else if value > hi {
        hi
    } else {
        value
    }
}

/// Whether saved bounds fit the current size limits of an overlay.
pub fn is_size_within_limits(
    bounds: DockPanelBounds,
    min_size: OverlaySize,
    max_size: OverlaySize,
) -> (r: bool)
    ensures
        r == size_within_limits(bounds, min_size, max_size),
{
    bounds.width >= min_size.width && bounds.width <= max_size.width && bounds.height
        >= min_size.height && bounds.height <= max_size.height
}

/// Applies per-overlay minimum and maximum sizes to proposed bounds.
pub fn clamp_bounds(bounds: DockPanelBounds, min_size: OverlaySize, max_size: OverlaySize) -> (r:
    DockPanelBounds)
    requires
        min_size.width <= max_size.width,
        min_size.height <= max_size.height,
    ensures
        r == clamped_bounds(bounds, min_size, max_size),
{
    DockPanelBounds {
        x: bounds.x,
        y: bounds.y,
        width: clamp_i32(bounds.width, min_size.width, max_size.width),
        height: clamp_i32(bounds.height, min_size.height, max_size.height),
    }
}

/// Forces a minimized overlay to its fixed size, keeping its place.
pub fn minimize_bounds(bounds: DockPanelBounds, minimize_size: OverlaySize) -> (r: DockPanelBounds)
    ensures
        r == minimized_bounds(bounds, minimize_size),
{
    DockPanelBounds {
        x: bounds.x,
        y: bounds.y,
        width: minimize_size.width,
        height: minimize_size.height,
    }
}

/// Combines the default overlay table with a saved one: the user's visibility and
/// (when they fit the limits) bounds are kept, while the default table decides
/// which overlays exist and everything else about them.
pub fn merge_overlay_config(default_config: OverlayConfigFile, saved_config: OverlayConfigFile) -> (r:
    OverlayConfigFile)
    ensures
        r.entry_seq() == merged_entries(default_config.entry_seq(), saved_config@),
{
    let mut config = default_config;
    let n: usize = config.len();
    let ghost defaults = config.entry_seq();
    let mut i: usize = 0;
    while i < n
        invariant
            n == defaults.len(),
            i <= n,
            config.entry_seq().len() == n,
            forall|j: int|
                #![trigger config.entry_seq()[j]]
                0 <= j < n ==> config.entry_seq()[j] == (if j < i {
                    merged_entries(defaults, saved_config@)[j]
                } else {
                    defaults[j]
                }),
        decreases n - i,
    {
        let found = saved_config.get(config.key_at(i).as_str());
        match found {
            Some(saved_overlay) => {
                let default_overlay = config.config_at(i);
                let bounds = if is_size_within_limits(
                    saved_overlay.bounds,
                    default_overlay.min_size,
                    default_overlay.max_size,
                ) {
                    saved_overlay.bounds
                } else {
                    default_overlay.bounds
                };
                let updated = OverlayConfig {
                    id: default_overlay.id.clone(),
                    route: default_overlay.route.clone(),
                    visible: saved_overlay.visible,
                    bounds,
                    min_size: default_overlay.min_size,
                    max_size: default_overlay.max_size,
                    minimize_size: default_overlay.minimize_size,
                };
                config.set_config_at(i, updated);
            },
            None => {},
        }
        i = i + 1;
    }
    assert(config.entry_seq() =~= merged_entries(defaults, saved_config@));
    config
}

/// The overlay configuration of the dock shell: where it is persisted, and the
/// table of overlays it currently holds.
pub struct OverlayStateStore {
    pub path: String,
    pub overlays: OverlayConfigFile,
}

impl OverlayStateStore {
    /// The store that starts up from the default table and, when a saved file
    /// exists, what it holds: the merge of the two, or the defaults alone on first run.
    /// This table is also what gets written back to `path`.
    pub fn load(path: String, default_config: OverlayConfigFile, saved_config: Option<
        OverlayConfigFile,
    >) -> (r: Self)
        ensures
            r.path == path,
            r.overlays.entry_seq() == (match saved_config {
                Some(saved) => merged_entries(default_config.entry_seq(), saved@),
                None => default_config.entry_seq(),
            }),
    {
        let overlays = match saved_config {
            Some(saved) => merge_overlay_config(default_config, saved),
            None => default_config,
        };
        OverlayStateStore { path, overlays }
    }

    /// A copy of the configuration stored under `id`.
    pub fn overlay(&self, id: &str) -> (r: Result<OverlayConfig, String>)
        ensures
            r is Ok <==> self.overlays@.contains_key(id@),
            r matches Ok(c) ==> c@ == self.overlays@[id@],
            r matches Err(e) ==> e@ == unknown_overlay_message(id@),
    {
        match self.overlays.get(id) {
            Some(config) => Ok(config.clone()),
            None => {
                proof {
                    reveal_strlit("Unknown overlay: ");
                }
                Err(concat_str("Unknown overlay: ", id))
            },
        }
    }

    /// Copies of the configurations of the shown overlays, in table order.
    pub fn visible_overlays(&self) -> (r: Vec<OverlayConfig>)
        ensures
            r@.map_values(|c: OverlayConfig| c@) == visible_configs(self.overlays.entry_seq()),
            r@.len() == shown_count(self.overlays.entry_seq()),
    {
        let ghost s = self.overlays.entry_seq();
        let n: usize = self.overlays.len();
        let mut result: Vec<OverlayConfig> = Vec::new();
        let mut i: usize = 0;
        while i < n
            invariant
                n == s.len(),
                s == self.overlays.entry_seq(),
                i <= n,
                result@.map_values(|c: OverlayConfig| c@) == visible_configs(s.take(i as int)),
            decreases n - i,
        {
            let config = self.overlays.config_at(i);
            assert(s.take(i + 1).drop_last() =~= s.take(i as int));
            if config.visible {
                result.push(config.clone());
            }
            assert(result@.map_values(|c: OverlayConfig| c@) =~= visible_configs(
                s.take(i + 1),
            ));
            i = i + 1;
        }
        assert(s.take(n as int) =~= s);
        proof {
            lemma_visible_configs_one_per_shown(s);
        }
        result
    }

    /// Moves and resizes the overlay stored under `id` and shows it: a minimized
    /// overlay takes its fixed minimized size, any other has its size clamped to
    /// its limits. Returns the stored result.
    pub fn move_overlay(&mut self, id: &str, bounds: DockPanelBounds, is_minimized: bool) -> (r:
        Result<OverlayConfig, String>)
        requires
            old(self).overlays@.contains_key(id@) && !is_minimized ==> limits_ordered(
                old(self).overlays@[id@],
            ),
        ensures
            r is Ok <==> old(self).overlays@.contains_key(id@),
            final(self).path == old(self).path,
            r matches Ok(c) ==> {
                &&& c@ == moved_overlay(old(self).overlays@[id@], bounds, is_minimized)
                &&& final(self).overlays@ == old(self).overlays@.insert(id@, c@)
                &&& final(self).overlays.entry_seq() == old(self).overlays.entry_seq().update(
                    key_index(old(self).overlays.entry_seq(), id@),
                    (id@, c@),
                )
            },
            r matches Err(e) ==> {
                &&& e@ == unknown_overlay_message(id@)
                &&& final(self).overlays.entry_seq() == old(self).overlays.entry_seq()
            },
    {
        match self.overlays.find(id) {
            Some(i) => {
                let ghost before = self.overlays.entry_seq();
                proof {
                    lemma_entries_map_at(before, i as int);
                }
                let current = self.overlays.config_at(i);
                let new_bounds = if is_minimized {
                    minimize_bounds(bounds, current.minimize_size)
                } else {
                    clamp_bounds(bounds, current.min_size, current.max_size)
                };
                let updated = OverlayConfig {
                    id: current.id.clone(),
                    route: current.route.clone(),
                    visible: true,
                    bounds: new_bounds,
                    min_size: current.min_size,
                    max_size: current.max_size,
                    minimize_size: current.minimize_size,
                };
                let result = updated.clone();
                self.overlays.set_config_at(i, updated);
                proof {
                    let after = self.overlays.entry_seq();
                    assert(before[i as int].0 == id@);
                    assert(after =~= before.update(i as int, (id@, result@)));
                    lemma_update_entries_map(before, i as int, result@);
                }
                Ok(result)
            },
            None => {
                proof {
                    reveal_strlit("Unknown overlay: ");
                }
                Err(concat_str("Unknown overlay: ", id))
            },
        }
    }
}

/// Replacing the configuration of one entry of a table with distinct keys
/// replaces the value under its key in the map view.
pub proof fn lemma_update_entries_map(s: Seq<OverlayEntry>, i: int, v: OverlayConfigView)
    requires
        keys_distinct(s),
        0 <= i < s.len(),
    ensures
        keys_distinct(s.update(i, (s[i].0, v))),
        entries_map(s.update(i, (s[i].0, v))) == entries_map(s).insert(s[i].0, v),
{
    let t = s.update(i, (s[i].0, v));
    assert(keys_distinct(t)) by {
        assert forall|a: int, b: int|
            0 <= a < t.len() && 0 <= b < t.len() && a != b implies #[trigger] t[a].0
            != #[trigger] t[b].0 by {
            assert(t[a].0 == s[a].0);
            assert(t[b].0 == s[b].0);
        }
    }
    assert forall|k: Seq<char>|
        #[trigger] entries_map(t).contains_key(k) == entries_map(s).insert(
            s[i].0,
            v,
        ).contains_key(k) by {
        if has_key(t, k) {
            let j: int = key_index(t, k);
            assert(s[j].0 == k);
        }
        if has_key(s, k) {
            let j: int = key_index(s, k);
            assert(t[j].0 == k);
        }
        assert(t[i].0 == s[i].0);
    }
    assert forall|k: Seq<char>| #[trigger]
        entries_map(t).contains_key(k) implies entries_map(t)[k] == entries_map(s).insert(
        s[i].0,
        v,
    )[k] by {
        let j: int = key_index(t, k);
        lemma_entries_map_at(t, j);
        if j != i {
            lemma_entries_map_at(s, j);
        }
    }
    assert(entries_map(t) =~= entries_map(s).insert(s[i].0, v));
}

/// Reading an overlay back after moving it gives what the move stored: when
/// `move_overlay` succeeds, `overlay` on the same id returns its result.
pub proof fn lemma_move_then_read(
    overlays: Map<Seq<char>, OverlayConfigView>,
    id: Seq<char>,
    bounds: DockPanelBounds,
    is_minimized: bool,
)
    requires
        overlays.contains_key(id),
    ensures
        ({
            let moved = moved_overlay(overlays[id], bounds, is_minimized);
            &&& overlays.insert(id, moved).contains_key(id)
            &&& overlays.insert(id, moved)[id] == moved
            &&& forall|k: Seq<char>|
                k != id && #[trigger] overlays.contains_key(k) ==> overlays.insert(id, moved)[k]
                    == overlays[k]
        }),
{
}

/// A moved overlay is shown, stays where it was asked to go, keeps its identity
/// and limits, and takes a size within its limits (or its minimized size).
pub proof fn lemma_moved_overlay_shape(
    config: OverlayConfigView,
    bounds: DockPanelBounds,
    is_minimized: bool,
)
    requires
        !is_minimized ==> limits_ordered(config),
    ensures
        ({
            let moved = moved_overlay(config, bounds, is_minimized);
            &&& moved.visible
            &&& moved.bounds.x == bounds.x && moved.bounds.y == bounds.y
            &&& moved.id == config.id && moved.route == config.route
            &&& moved.min_size == config.min_size && moved.max_size == config.max_size
            &&& moved.minimize_size == config.minimize_size
            &&& is_minimized ==> moved.bounds.width == config.minimize_size.width
                && moved.bounds.height == config.minimize_size.height
            &&& !is_minimized ==> size_within_limits(moved.bounds, config.min_size, config.max_size)
            &&& !is_minimized && size_within_limits(bounds, config.min_size, config.max_size)
                ==> moved.bounds == bounds
        }),
{
}

/// Merging keeps the default definition of an overlay authoritative: only the
/// visibility and the bounds can come from the saved file, and saved bounds only
/// when they fit the default limits.
pub proof fn lemma_merge_keeps_definitions(
    default_overlay: OverlayConfigView,
    saved_overlay: Option<OverlayConfigView>,
)
    ensures
        ({
            let merged = merged_overlay(default_overlay, saved_overlay);
            &&& merged.id == default_overlay.id
            &&& merged.route == default_overlay.route
            &&& merged.min_size == default_overlay.min_size
            &&& merged.max_size == default_overlay.max_size
            &&& merged.minimize_size == default_overlay.minimize_size
            &&& merged.bounds == default_overlay.bounds || (saved_overlay is Some
                && merged.bounds == saved_overlay.unwrap().bounds && size_within_limits(
                merged.bounds,
                default_overlay.min_size,
                default_overlay.max_size,
            ))
            &&& merged.visible == match saved_overlay {
                Some(saved) => saved.visible,
                None => default_overlay.visible,
            }
        }),
{
}

/// Loading is stable across restarts: merging the defaults with the file that
/// the previous load wrote gives that same table again.
pub proof fn lemma_merge_reload_stable(
    defaults: Seq<OverlayEntry>,
    saved: Map<Seq<char>, OverlayConfigView>,
)
    requires
        keys_distinct(defaults),
    ensures
        merged_entries(defaults, entries_map(merged_entries(defaults, saved))) == merged_entries(
            defaults,
            saved,
        ),
{
    let first = merged_entries(defaults, saved);
    assert(keys_distinct(first)) by {
        assert forall|a: int, b: int|
            0 <= a < first.len() && 0 <= b < first.len() && a != b implies #[trigger] first[a].0
            != #[trigger] first[b].0 by {
            assert(first[a].0 == defaults[a].0);
            assert(first[b].0 == defaults[b].0);
        }
    }
    let second = merged_entries(defaults, entries_map(first));
    assert forall|i: int| 0 <= i < defaults.len() implies #[trigger] second[i] == first[i] by {
        lemma_entries_map_at(first, i);
        assert(first[i].0 == defaults[i].0);
    }
    assert(second =~= first);
}

/// Bounds that the user gave an overlay by moving it (not minimized) survive a
/// restart: merging them back into a default definition with the same limits
/// keeps them, and the overlay stays shown.
pub proof fn lemma_moved_bounds_survive_reload(
    default_overlay: OverlayConfigView,
    current: OverlayConfigView,
    bounds: DockPanelBounds,
)
    requires
        limits_ordered(current),
        default_overlay.min_size == current.min_size,
        default_overlay.max_size == current.max_size,
    ensures
        ({
            let moved = moved_overlay(current, bounds, false);
            let reloaded = merged_overlay(default_overlay, Some(moved));
            &&& reloaded.bounds == moved.bounds
            &&& reloaded.visible
        }),
{
}

/// The shown overlays are exactly the visible entries: each listed configuration
/// is visible and belongs to an entry, and each visible entry is listed.
pub proof fn lemma_visible_configs_exact(s: Seq<OverlayEntry>)
    ensures
        forall|x: OverlayConfigView| #[trigger]
            visible_configs(s).contains(x) ==> x.visible && exists|i: int|
                0 <= i < s.len() && s[i].1 == x,
        forall|i: int|
            0 <= i < s.len() && (#[trigger] s[i]).1.visible ==> visible_configs(s).contains(s[i].1),
    decreases s.len(),
{
    if s.len() > 0 {
        let init = s.drop_last();
        lemma_visible_configs_exact(init);
        let rest = visible_configs(init);
        assert forall|x: OverlayConfigView| #[trigger]
            visible_configs(s).contains(x) implies x.visible && exists|i: int|
                0 <= i < s.len() && s[i].1 == x by {
            if rest.contains(x) {
                let i: int = choose|i: int| 0 <= i < init.len() && init[i].1 == x;
                assert(s[i] == init[i]);
            } else {
                assert(s.last().1.visible);
                let k: int = choose|k: int| 0 <= k < visible_configs(s).len() && visible_configs(s)[k] == x;
                assert(k == rest.len());
                assert(s[s.len() - 1].1 == x);
            }
        }
        assert forall|i: int|
            0 <= i < s.len() && (#[trigger] s[i]).1.visible implies visible_configs(s).contains(
            s[i].1,
        ) by {
            if i < s.len() - 1 {
                assert(init[i] == s[i]);
                assert(rest.contains(s[i].1));
                let k: int = choose|k: int| 0 <= k < rest.len() && rest[k] == s[i].1;
                assert(visible_configs(s)[k] == s[i].1);
            } else {
                assert(visible_configs(s)[rest.len() as int] == s[i].1);
            }
        }
    }
}

/// Whether an overlay entry is shown.
pub open spec fn is_shown() -> spec_fn(OverlayEntry) -> bool {
    |e: OverlayEntry| e.1.visible
}

/// How many overlay entries are shown.
pub open spec fn shown_count(s: Seq<OverlayEntry>) -> nat {
    s.filter(is_shown()).len()
}

/// The shown overlays are listed one for one: one configuration per visible
/// entry, in table order, the configuration of the `i`-th entry (when visible)
/// right after those of the visible entries before it.
pub proof fn lemma_visible_configs_one_per_shown(s: Seq<OverlayEntry>)
    ensures
        visible_configs(s).len() == shown_count(s),
        forall|i: int|
            0 <= i < s.len() && (#[trigger] s[i]).1.visible ==> {
                &&& shown_count(s.take(i)) < visible_configs(s).len()
                &&& visible_configs(s)[shown_count(s.take(i)) as int] == s[i].1
            },
    decreases s.len(),
{
    let p = is_shown();
    let n = s.len();
    if n == 0 {
        reveal(Seq::filter);
    } else {
        let init = s.drop_last();
        lemma_visible_configs_one_per_shown(init);
        assert(s =~= init.push(s.last()));
        reveal(Seq::filter);
        assert(s.drop_last() =~= init);
        assert forall|i: int| 0 <= i < n && (#[trigger] s[i]).1.visible implies {
            &&& shown_count(s.take(i)) < visible_configs(s).len()
            &&& visible_configs(s)[shown_count(s.take(i)) as int] == s[i].1
        } by {
            if i < n - 1 {
                assert(s.take(i) =~= init.take(i));
                assert(s[i] == init[i]);
            } else {
                assert(s.take(i) =~= init);
            }
        }
    }
}

} // verus!
