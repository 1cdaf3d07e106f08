use vstd::prelude::*;

use crate::models::dock_state::{opt_string_view, DockedWindowInfoView};
use crate::models::{DockPanelBounds, DockStateSnapshot, DockedWindowInfo, WindowInfo, WindowRect};
use crate::state::dock_state_store::{
    lemma_only_bounds_changed_refl, lemma_only_bounds_changed_trans, only_bounds_changed,
};
use crate::state::DockStateStore;
use crate::text::{int_decimal, is_blank, is_blank_str, prefixed_decimal};
use crate::win32::window_parent::invalid_hwnd_message;
use crate::win32::hwnd::null_hwnd_message;
use crate::win32::Hwnd;

verus! {

// ---------------------------------------------------------------------------
// Geometry of docked windows
// ---------------------------------------------------------------------------

/// `a / 2` rounded toward zero, as integer division does.
pub open spec fn half_toward_zero(a: int) -> int {
    if a >= 0 {
        a / 2
    } else {
        -((-a) / 2)
    }
}

/// Nine tenths of `v`, rounded to the nearest integer with halves away from zero.
pub open spec fn ninety_percent(v: int) -> int {
    let n = 9 * v;
    if n >= 0 {
        (n + 5) / 10
    } else {
        -((-n + 5) / 10)
    }
}

/// A dimension of a newly docked window: at most nine tenths of the viewport
/// dimension, and at least one pixel.
pub open spec fn child_dimension(size: int, viewport_size: int) -> int {
    let capped = if size <= ninety_percent(viewport_size) {
        size
    } else {
        ninety_percent(viewport_size)
    };
    if capped >= 1 {
        capped
    } else {
        1
    }
}

/// Where a newly docked window of the given size (in CSS pixels) first sits on
/// the virtual canvas: its size capped by the viewport, centered in the camera.
pub open spec fn centered_bounds(
    camera_bounds: DockPanelBounds,
    source_width: i32,
    source_height: i32,
) -> DockPanelBounds {
    let width = child_dimension(source_width as int, camera_bounds.width as int);
    let height = child_dimension(source_height as int, camera_bounds.height as int);
    DockPanelBounds {
        x: (camera_bounds.x + half_toward_zero(camera_bounds.width - width)) as i32,
        y: (camera_bounds.y + half_toward_zero(camera_bounds.height - height)) as i32,
        width: width as i32,
        height: height as i32,
    }
}

/// Centering a window of the given size in the camera stays within `i32`.
pub open spec fn centering_fits(
    camera_bounds: DockPanelBounds,
    source_width: i32,
    source_height: i32,
) -> bool {
    let width = child_dimension(source_width as int, camera_bounds.width as int);
    let height = child_dimension(source_height as int, camera_bounds.height as int);
    &&& i32::MIN <= camera_bounds.width - width <= i32::MAX
    &&& i32::MIN <= camera_bounds.height - height <= i32::MAX
    &&& i32::MIN <= camera_bounds.x + half_toward_zero(camera_bounds.width - width) <= i32::MAX
    &&& i32::MIN <= camera_bounds.y + half_toward_zero(camera_bounds.height - height) <= i32::MAX
}

/// Virtual canvas bounds seen through the camera: shifted by the camera origin.
pub open spec fn viewport_bounds_of(
    virtual_bounds: DockPanelBounds,
    camera_bounds: DockPanelBounds,
) -> DockPanelBounds {
    DockPanelBounds {
        x: (virtual_bounds.x - camera_bounds.x) as i32,
        y: (virtual_bounds.y - camera_bounds.y) as i32,
        width: virtual_bounds.width,
        height: virtual_bounds.height,
    }
}

/// Viewport bounds placed back on the virtual canvas: shifted by the camera origin.
pub open spec fn virtual_bounds_of(
    camera_bounds: DockPanelBounds,
    viewport_bounds: DockPanelBounds,
) -> DockPanelBounds {
    DockPanelBounds {
        x: (camera_bounds.x + viewport_bounds.x) as i32,
        y: (camera_bounds.y + viewport_bounds.y) as i32,
        width: viewport_bounds.width,
        height: viewport_bounds.height,
    }
}

/// Nine tenths of `viewport_size`, rounded half away from zero; this is what
/// `(viewport_size as f64 * 0.9).round() as i32` gives for every `i32`.
fn ninety_percent_of(viewport_size: i32) -> (r: i32)
    ensures
        r == ninety_percent(viewport_size as int),
{
    let n: i64 = 9 * (viewport_size as i64);
    if n >= 0 {
        ((n + 5) / 10) as i32
    } else {
        (-((-n + 5) / 10)) as i32
    }
}

/// Limits a dimension of a newly docked window to nine tenths of the viewport
/// dimension, and to at least one pixel.
pub fn clamp_child_dimension(size: i32, viewport_size: i32) -> (r: i32)
    ensures
        r == child_dimension(size as int, viewport_size as int),
        1 <= r,
        r <= size || r == 1,
{
    let max_size = ninety_percent_of(viewport_size);
    let capped = if size <= max_size {
        size
    } else {
        max_size
    };
    if capped >= 1 {
        capped
    } else {
        1
    }
}

/// `a / 2` rounded toward zero.
fn half_of(a: i32) -> (r: i32)
    ensures
        r == half_toward_zero(a as int),
{
    if a >= 0 {
        a / 2
    } else {
        let m: i64 = -(a as i64);
        (-(m / 2)) as i32
    }
}

/// Initial virtual bounds of a newly docked window, centered in the current
/// camera. `source_width` and `source_height` are the window's size in CSS pixels.
pub fn centered_child_virtual_bounds(
    camera_bounds: DockPanelBounds,
    source_width: i32,
    source_height: i32,
) -> (r: Result<DockPanelBounds, String>)
    requires
        centering_fits(camera_bounds, source_width, source_height),
    ensures
        r == Ok::<DockPanelBounds, String>(
            centered_bounds(camera_bounds, source_width, source_height),
        ),
{
    let width = clamp_child_dimension(source_width, camera_bounds.width);
    let height = clamp_child_dimension(source_height, camera_bounds.height);
    Ok(
        DockPanelBounds {
            x: camera_bounds.x + half_of(camera_bounds.width - width),
            y: camera_bounds.y + half_of(camera_bounds.height - height),
            width,
            height,
        },
    )
}

/// Projects virtual canvas bounds into the currently visible viewport.
pub fn viewport_child_bounds(virtual_bounds: DockPanelBounds, camera_bounds: DockPanelBounds) -> (r:
    DockPanelBounds)
    requires
        i32::MIN <= virtual_bounds.x - camera_bounds.x <= i32::MAX,
        i32::MIN <= virtual_bounds.y - camera_bounds.y <= i32::MAX,
    ensures
        r == viewport_bounds_of(virtual_bounds, camera_bounds),
{
    DockPanelBounds {
        x: virtual_bounds.x - camera_bounds.x,
        y: virtual_bounds.y - camera_bounds.y,
        width: virtual_bounds.width,
        height: virtual_bounds.height,
    }
}

/// Places viewport bounds back on the virtual canvas under the given camera.
pub fn virtual_child_bounds(camera_bounds: DockPanelBounds, viewport_bounds: DockPanelBounds) -> (r:
    DockPanelBounds)
    requires
        i32::MIN <= camera_bounds.x + viewport_bounds.x <= i32::MAX,
        i32::MIN <= camera_bounds.y + viewport_bounds.y <= i32::MAX,
    ensures
        r == virtual_bounds_of(camera_bounds, viewport_bounds),
{
    DockPanelBounds {
        x: camera_bounds.x + viewport_bounds.x,
        y: camera_bounds.y + viewport_bounds.y,
        width: viewport_bounds.width,
        height: viewport_bounds.height,
    }
}

// ---------------------------------------------------------------------------
// Window metadata
// ---------------------------------------------------------------------------

/// The title shown for a docked window: its own, or `HWND <number>` when blank.
pub open spec fn display_title(window: WindowInfo) -> Seq<char> {
    if is_blank(window.title@) {
        "HWND "@ + int_decimal(window.hwnd as int)
    } else {
        window.title@
    }
}

/// Display metadata of a docked window.
pub open spec fn docked_info_of(
    window: WindowInfo,
    virtual_bounds: DockPanelBounds,
) -> DockedWindowInfoView {
    DockedWindowInfoView {
        hwnd: window.hwnd,
        title: display_title(window),
        class_name: opt_string_view(window.class_name),
        process_id: window.process_id,
        virtual_bounds,
    }
}

/// Builds display metadata for a docked window, with a readable title when the
/// window's own is blank.
pub fn docked_window_info(window: WindowInfo, virtual_bounds: DockPanelBounds) -> (r:
    DockedWindowInfo)
    ensures
        r@ == docked_info_of(window, virtual_bounds),
{
    let title = if is_blank_str(window.title.as_str()) {
        proof {
            reveal_strlit("HWND ");
        }
        prefixed_decimal("HWND ", window.hwnd as i64)
    } else {
        window.title
    };
    DockedWindowInfo {
        hwnd: window.hwnd,
        title,
        class_name: window.class_name,
        process_id: window.process_id,
        virtual_bounds,
    }
}

/// The windows of a listing other than `hwnd`, in listing order.
pub open spec fn windows_without(s: Seq<WindowInfo>, hwnd: isize) -> Seq<WindowInfo>
    decreases s.len(),
{
    if s.len() == 0 {
        Seq::empty()
    } else {
        let rest = windows_without(s.drop_last(), hwnd);
        if s.last().hwnd == hwnd {
            rest
        } else {
            rest.push(s.last())
        }
    }
}

/// Keeping one more element under a filter: the element is kept exactly when it
/// passes the filter, after everything kept before it.
proof fn lemma_filter_push<A>(s: Seq<A>, x: A, p: spec_fn(A) -> bool)
    ensures
        s.push(x).filter(p) == (if p(x) {
            s.filter(p).push(x)
        } else {
            s.filter(p)
        }),
{
    reveal(Seq::filter);
    assert(s.push(x).drop_last() =~= s);
}

/// Nothing passes a filter out of nothing.
proof fn lemma_filter_empty<A>(s: Seq<A>, p: spec_fn(A) -> bool)
    requires
        s.len() == 0,
    ensures
        s.filter(p).len() == 0,
{
    reveal(Seq::filter);
}

/// Whether a listed window is some other window than `container`.
pub open spec fn other_than(container: isize) -> spec_fn(WindowInfo) -> bool {
    |w: WindowInfo| w.hwnd != container
}

/// Offering windows for docking drops the dock's own container and nothing else:
/// the offer is the listing filtered by "not the container", in listing order;
/// every listed window other than the container is offered, and the container
/// never is.
pub proof fn lemma_list_windows_drops_only_container(s: Seq<WindowInfo>, container: isize)
    ensures
        windows_without(s, container) == s.filter(other_than(container)),
        forall|i: int|
            0 <= i < s.len() && #[trigger] s[i].hwnd != container ==> windows_without(
                s,
                container,
            ).contains(s[i]),
        forall|k: int|
            0 <= k < windows_without(s, container).len() ==> (#[trigger] windows_without(
                s,
                container,
            )[k]).hwnd != container,
    decreases s.len(),
{
    let p = other_than(container);
    if s.len() == 0 {
        lemma_filter_empty(s, p);
        assert(windows_without(s, container) =~= s.filter(p));
    } else {
        lemma_list_windows_drops_only_container(s.drop_last(), container);
        assert(s =~= s.drop_last().push(s.last()));
        lemma_filter_push(s.drop_last(), s.last(), p);
    }
    assert forall|i: int| 0 <= i < s.len() && #[trigger] s[i].hwnd != container implies windows_without(
        s,
        container,
    ).contains(s[i]) by {
        s.lemma_filter_contains(p, i);
    }
    assert forall|k: int| 0 <= k < windows_without(s, container).len() implies (
    #[trigger] windows_without(s, container)[k]).hwnd != container by {
        s.lemma_filter_pred(p, k);
    }
}

/// The window listing offered to the user: every listed window but the dock's
/// own container.
pub fn list_windows(windows: Vec<WindowInfo>, container: Hwnd) -> (r: Vec<WindowInfo>)
    ensures
        r@ == windows_without(windows@, container.0),
        r@ == windows@.filter(other_than(container.0)),
        forall|i: int|
            0 <= i < windows@.len() && #[trigger] windows@[i].hwnd != container.0 ==> r@.contains(
                windows@[i],
            ),
{
    let n: usize = windows.len();
    let mut result: Vec<WindowInfo> = Vec::new();
    let mut i: usize = 0;
    while i < n
        invariant
            n == windows@.len(),
            i <= n,
            result@ == windows_without(windows@.take(i as int), container.0),
        decreases n - i,
    {
        assert(windows@.take(i + 1).drop_last() =~= windows@.take(i as int));
        if windows[i].hwnd != container.0 {
            result.push(windows[i].clone());
        }
        assert(result@ =~= windows_without(windows@.take(i + 1), container.0));
        i = i + 1;
    }
    assert(windows@.take(n as int) =~= windows@);
    proof {
        lemma_list_windows_drops_only_container(windows@, container.0);
    }
    result
}

/// The metadata of the docked windows that still exist: `windows[i]` is the
/// window system's metadata for the `i`-th docked window, or nothing when that
/// handle no longer names a window.
pub open spec fn listed_docked(
    snapshots: Seq<DockStateSnapshot>,
    windows: Seq<Option<WindowInfo>>,
) -> Seq<DockedWindowInfoView>
    decreases windows.len(),
{
    if windows.len() == 0 || snapshots.len() == 0 {
        Seq::empty()
    } else {
        let rest = listed_docked(snapshots.drop_last(), windows.drop_last());
        match windows.last() {
            Some(w) => rest.push(docked_info_of(w, snapshots.last().virtual_bounds)),
            None => rest,
        }
    }
}

/// Whether the window system reported a window for a docked handle.
pub open spec fn still_exists() -> spec_fn(Option<WindowInfo>) -> bool {
    |w: Option<WindowInfo>| w is Some
}

/// How many of the reported docked windows still exist.
pub open spec fn live_count(windows: Seq<Option<WindowInfo>>) -> nat {
    windows.filter(still_exists()).len()
}

/// Listing the docked windows lists every docked window that still exists and
/// nothing else: one entry per existing window, in docking order, the `i`-th
/// docked window (when it exists) right after the existing windows docked
/// before it, with its own metadata and its own place on the virtual canvas.
pub proof fn lemma_listed_docked_lists_every_live_window(
    snapshots: Seq<DockStateSnapshot>,
    windows: Seq<Option<WindowInfo>>,
)
    requires
        snapshots.len() == windows.len(),
    ensures
        listed_docked(snapshots, windows).len() == live_count(windows),
        forall|i: int|
            0 <= i < windows.len() && (#[trigger] windows[i]) is Some ==> {
                &&& live_count(windows.take(i)) < listed_docked(snapshots, windows).len()
                &&& listed_docked(snapshots, windows)[live_count(windows.take(i)) as int]
                    == docked_info_of(windows[i]->0, snapshots[i].virtual_bounds)
                &&& listed_docked(snapshots, windows)[live_count(windows.take(i)) as int].hwnd
                    == windows[i]->0.hwnd
                &&& listed_docked(snapshots, windows)[live_count(
                    windows.take(i),
                ) as int].virtual_bounds == snapshots[i].virtual_bounds
            },
    decreases windows.len(),
{
    let p = still_exists();
    let n = windows.len();
    let result = listed_docked(snapshots, windows);
    if n == 0 {
        lemma_filter_empty(windows, p);
    } else {
        let w2 = windows.drop_last();
        let s2 = snapshots.drop_last();
        let rest = listed_docked(s2, w2);
        lemma_listed_docked_lists_every_live_window(s2, w2);
        assert(windows =~= w2.push(windows.last()));
        lemma_filter_push(w2, windows.last(), p);
        assert forall|i: int| 0 <= i < n && (#[trigger] windows[i]) is Some implies {
            &&& live_count(windows.take(i)) < result.len()
            &&& result[live_count(windows.take(i)) as int] == docked_info_of(
                windows[i]->0,
                snapshots[i].virtual_bounds,
            )
        } by {
            if i < n - 1 {
                assert(windows.take(i) =~= w2.take(i));
                assert(windows[i] == w2[i]);
                assert(snapshots[i] == s2[i]);
            } else {
                assert(windows.take(i) =~= w2);
            }
        }
    }
}

/// Metadata of the docked windows that still exist, in docking order, each with
/// its place on the virtual canvas. `windows[i]` is what the window system reports
/// for the `i`-th docked window (nothing when it is gone).
pub fn list_docked_windows(store: &DockStateStore, windows: &Vec<Option<WindowInfo>>) -> (r: Vec<
    DockedWindowInfo,
>)
    requires
        windows@.len() == store.snapshots().len(),
    ensures
        r@.map_values(|d: DockedWindowInfo| d@) == listed_docked(store.snapshots(), windows@),
        r@.len() == live_count(windows@),
        forall|i: int|
            0 <= i < windows@.len() && (#[trigger] windows@[i]) is Some ==> {
                &&& live_count(windows@.take(i)) < r@.len()
                &&& r@[live_count(windows@.take(i)) as int]@ == docked_info_of(
                    windows@[i]->0,
                    store.snapshots()[i].virtual_bounds,
                )
            },
{
    let n: usize = store.len();
    let ghost snaps = store.snapshots();
    let mut result: Vec<DockedWindowInfo> = Vec::new();
    let mut i: usize = 0;
    while i < n
        invariant
            n == snaps.len(),
            snaps == store.snapshots(),
            windows@.len() == n,
            i <= n,
            result@.map_values(|d: DockedWindowInfo| d@) == listed_docked(
                snaps.take(i as int),
                windows@.take(i as int),
            ),
        decreases n - i,
    {
        assert(snaps.take(i + 1).drop_last() =~= snaps.take(i as int));
        assert(windows@.take(i + 1).drop_last() =~= windows@.take(i as int));
        let snapshot = store.snapshot_at(i);
        match &windows[i] {
            Some(window) => {
                result.push(docked_window_info(window.clone(), snapshot.virtual_bounds));
            },
            None => {},
        }
        assert(result@.map_values(|d: DockedWindowInfo| d@) =~= listed_docked(
            snaps.take(i + 1),
            windows@.take(i + 1),
        ));
        i = i + 1;
    }
    assert(snaps.take(n as int) =~= snaps);
    assert(windows@.take(n as int) =~= windows@);
    proof {
        lemma_listed_docked_lists_every_live_window(snaps, windows@);
        assert forall|i: int| 0 <= i < windows@.len() && (#[trigger] windows@[i]) is Some implies {
            &&& live_count(windows@.take(i)) < result@.len()
            &&& result@[live_count(windows@.take(i)) as int]@ == docked_info_of(
                windows@[i]->0,
                snaps[i].virtual_bounds,
            )
        } by {
            let k = live_count(windows@.take(i)) as int;
            assert(result@.map_values(|d: DockedWindowInfo| d@)[k] == result@[k]@);
        }
    }
    result
}

// ---------------------------------------------------------------------------
// Validation
// ---------------------------------------------------------------------------

/// The message of an undock or placement request for a window that is not docked.
pub open spec fn not_docked_message(hwnd: isize) -> Seq<char> {
    "No dock state found for HWND "@ + int_decimal(hwnd as int)
}

/// The message of a request to dock the container into itself.
pub open spec fn self_dock_message() -> Seq<char> {
    "Cannot dock the Tauri container window into itself."@
}

/// Rejects a handle that no longer names a window (`is_window` is the window
/// system's answer for it) before native window state is changed.
pub fn ensure_valid_hwnd(hwnd: Hwnd, is_window: bool) -> (r: Result<(), String>)
    ensures
        r is Ok <==> is_window,
        r matches Err(e) ==> e@ == invalid_hwnd_message(hwnd.0),
{
    if !is_window {
        proof {
            reveal_strlit("Invalid HWND: ");
        }
        return Err(prefixed_decimal("Invalid HWND: ", hwnd.0 as i64));
    }
    Ok(())
}

/// The window a resize request addresses: a non-null handle of a live window.
pub fn resize_docked_window(hwnd: isize, target_is_window: bool) -> (r: Result<Hwnd, String>)
    ensures
        r is Ok <==> hwnd != 0 && target_is_window,
        r matches Ok(t) ==> t == Hwnd(hwnd),
        r matches Err(e) ==> e@ == (if hwnd == 0 {
            null_hwnd_message()
        } else {
            invalid_hwnd_message(hwnd)
        }),
{
    let target = Hwnd::new(hwnd)?;
    ensure_valid_hwnd(target, target_is_window)?;
    Ok(target)
}

/// The window a placement request addresses: a non-null handle of a live window
/// that is docked.
pub fn position_docked_window(store: &DockStateStore, hwnd: isize, target_is_window: bool) -> (r:
    Result<Hwnd, String>)
    ensures
        r is Ok <==> hwnd != 0 && target_is_window && store@.contains_key(hwnd),
        r matches Ok(t) ==> t == Hwnd(hwnd),
        r matches Err(e) ==> e@ == (if hwnd == 0 {
            null_hwnd_message()
        } else if !target_is_window {
            invalid_hwnd_message(hwnd)
        } else {
            not_docked_message(hwnd)
        }),
{
    let target = Hwnd::new(hwnd)?;
    ensure_valid_hwnd(target, target_is_window)?;
    if !store.contains(target.0) {
        proof {
            reveal_strlit("No dock state found for HWND ");
        }
        return Err(prefixed_decimal("No dock state found for HWND ", hwnd as i64));
    }
    Ok(target)
}

/// The snapshot to restore for an undock request: the handle must be non-null
/// and docked.
pub fn undock_window(store: &DockStateStore, hwnd: isize) -> (r: Result<DockStateSnapshot, String>)
    ensures
        r is Ok <==> hwnd != 0 && store@.contains_key(hwnd),
        r matches Ok(s) ==> s == store@[hwnd],
        r matches Err(e) ==> e@ == (if hwnd == 0 {
            null_hwnd_message()
        } else {
            not_docked_message(hwnd)
        }),
{
    let target = Hwnd::new(hwnd)?;
    match store.get(target.0) {
        Some(snapshot) => Ok(snapshot),
        None => {
            proof {
                reveal_strlit("No dock state found for HWND ");
            }
            Err(prefixed_decimal("No dock state found for HWND ", hwnd as i64))
        },
    }
}

/// Empties the store when the shell exits and returns every snapshot to restore,
/// in docking order.
pub fn undock_all_windows(store: &mut DockStateStore) -> (r: Vec<DockStateSnapshot>)
    ensures
        r@ == old(store).snapshots(),
        final(store)@ == Map::<isize, DockStateSnapshot>::empty(),
{
    store.drain()
}

/// Decides a dock request for `hwnd` from the container `container`: a null
/// handle, the container itself and a handle that names no window
/// (`target_is_window` is the window system's answer) are refused; a window that
/// is already docked needs nothing (`Ok(None)`); any other is to be docked.
pub fn dock_window(store: &DockStateStore, container: Hwnd, hwnd: isize, target_is_window: bool) -> (r:
    Result<Option<Hwnd>, String>)
    ensures
        r is Ok <==> hwnd != 0 && hwnd != container.0 && target_is_window,
        r matches Ok(d) ==> d == (if store@.contains_key(hwnd) {
            None
        } else {
            Some(Hwnd(hwnd))
        }),
        r matches Err(e) ==> e@ == (if hwnd == 0 {
            null_hwnd_message()
        } else if hwnd == container.0 {
            self_dock_message()
        } else {
            invalid_hwnd_message(hwnd)
        }),
{
    let target = Hwnd::new(hwnd)?;
    if target.0 == container.0 {
        return Err(String::from_str("Cannot dock the Tauri container window into itself."));
    }
    ensure_valid_hwnd(target, target_is_window)?;
    if store.contains(target.0) {
        return Ok(None);
    }
    Ok(Some(target))
}

/// Captures enough of a window's original state to undo its docking later.
pub fn capture_snapshot(
    hwnd: Hwnd,
    original_rect: WindowRect,
    virtual_bounds: DockPanelBounds,
    original_parent: Hwnd,
    original_style: isize,
    original_ex_style: isize,
) -> (r: DockStateSnapshot)
    ensures
        r == (DockStateSnapshot {
            hwnd: hwnd.0,
            original_parent: original_parent.0,
            original_style,
            original_ex_style,
            original_rect,
            virtual_bounds,
        }),
{
    DockStateSnapshot {
        hwnd: hwnd.0,
        original_parent: original_parent.0,
        original_style,
        original_ex_style,
        original_rect,
        virtual_bounds,
    }
}

// ---------------------------------------------------------------------------
// Synchronizing virtual bounds
// ---------------------------------------------------------------------------

/// What the window system reports for one docked window when its bounds are synced.
pub enum BoundsObservation {
    /// The handle no longer names a window.
    Gone,
    /// The window's bounds in the viewport (CSS pixels) and its metadata.
    Read { viewport_bounds: DockPanelBounds, window: WindowInfo },
    /// Reading the window's bounds failed with this message.
    Failed(String),
}

/// A snapshot after its window was observed: a read window sits on the virtual
/// canvas where the camera sees it; otherwise nothing changes.
pub open spec fn synced_snapshot(
    snapshot: DockStateSnapshot,
    camera_bounds: DockPanelBounds,
    observation: BoundsObservation,
) -> DockStateSnapshot {
    match observation {
        BoundsObservation::Read { viewport_bounds, .. } => DockStateSnapshot {
            virtual_bounds: virtual_bounds_of(camera_bounds, viewport_bounds),
            ..snapshot
        },
        _ => snapshot,
    }
}

/// The metadata reported for the read windows, in docking order.
pub open spec fn synced_infos(
    observations: Seq<BoundsObservation>,
    camera_bounds: DockPanelBounds,
) -> Seq<DockedWindowInfoView>
    decreases observations.len(),
{
    if observations.len() == 0 {
        Seq::empty()
    } else {
        let rest = synced_infos(observations.drop_last(), camera_bounds);
        match observations.last() {
            BoundsObservation::Read { viewport_bounds, window } => rest.push(
                docked_info_of(window, virtual_bounds_of(camera_bounds, viewport_bounds)),
            ),
            _ => rest,
        }
    }
}

/// No observation is a failure.
pub open spec fn no_failure(observations: Seq<BoundsObservation>) -> bool {
    forall|j: int| 0 <= j < observations.len() ==> !(#[trigger] observations[j] is Failed)
}

/// Every window read before the first failure lands on the canvas within `i32`.
pub open spec fn sync_fits(
    observations: Seq<BoundsObservation>,
    camera_bounds: DockPanelBounds,
) -> bool {
    forall|j: int|
        0 <= j < observations.len() && no_failure(observations.take(j)) ==> match #[trigger] observations[j] {
            BoundsObservation::Read { viewport_bounds, .. } => {
                &&& i32::MIN <= camera_bounds.x + viewport_bounds.x <= i32::MAX
                &&& i32::MIN <= camera_bounds.y + viewport_bounds.y <= i32::MAX
            },
            _ => true,
        }
}

/// Whether an observation read a window's bounds.
pub open spec fn was_read() -> spec_fn(BoundsObservation) -> bool {
    |o: BoundsObservation| o is Read
}

/// How many of the observations read a window's bounds.
pub open spec fn read_count(observations: Seq<BoundsObservation>) -> nat {
    observations.filter(was_read()).len()
}

/// A sync reports every window it read and nothing else: one entry per read
/// observation, in docking order, the entry of the `j`-th observation (when it
/// is a read) right after those of the reads before it, naming the window read
/// and placing it on the virtual canvas where the camera sees it: at the camera's
/// origin shifted by the window's position in the viewport, with its size.
pub proof fn lemma_sync_reports_every_read_window(
    observations: Seq<BoundsObservation>,
    camera_bounds: DockPanelBounds,
)
    ensures
        synced_infos(observations, camera_bounds).len() == read_count(observations),
        forall|j: int|
            0 <= j < observations.len() && (#[trigger] observations[j]) is Read ==> {
                let infos = synced_infos(observations, camera_bounds);
                let k = read_count(observations.take(j)) as int;
                &&& k < infos.len()
                &&& infos[k] == docked_info_of(
                    observations[j]->window,
                    virtual_bounds_of(camera_bounds, observations[j]->viewport_bounds),
                )
                &&& infos[k].hwnd == observations[j]->window.hwnd
                &&& infos[k].virtual_bounds == (DockPanelBounds {
                    x: (camera_bounds.x + observations[j]->viewport_bounds.x) as i32,
                    y: (camera_bounds.y + observations[j]->viewport_bounds.y) as i32,
                    width: observations[j]->viewport_bounds.width,
                    height: observations[j]->viewport_bounds.height,
                })
            },
    decreases observations.len(),
{
    let p = was_read();
    let n = observations.len();
    let result = synced_infos(observations, camera_bounds);
    if n == 0 {
        lemma_filter_empty(observations, p);
    } else {
        let o2 = observations.drop_last();
        lemma_sync_reports_every_read_window(o2, camera_bounds);
        assert(observations =~= o2.push(observations.last()));
        lemma_filter_push(o2, observations.last(), p);
        assert forall|j: int| 0 <= j < n && (#[trigger] observations[j]) is Read implies {
            let k = read_count(observations.take(j)) as int;
            &&& k < result.len()
            &&& result[k] == docked_info_of(
                observations[j]->window,
                virtual_bounds_of(camera_bounds, observations[j]->viewport_bounds),
            )
        } by {
            if j < n - 1 {
                assert(observations.take(j) =~= o2.take(j));
                assert(observations[j] == o2[j]);
            } else {
                assert(observations.take(j) =~= o2);
            }
        }
    }
}

/// Saves where the docked windows currently sit as their virtual bounds before
/// the camera moves. `observations[i]` is what the window system reports for the
/// `i`-th docked window. Windows that are gone are skipped; a failed read stops
/// the sync with its message, keeping the windows synced before it.
pub fn sync_docked_window_bounds(
    store: &mut DockStateStore,
    camera_bounds: DockPanelBounds,
    observations: &Vec<BoundsObservation>,
) -> (r: Result<Vec<DockedWindowInfo>, String>)
    requires
        observations@.len() == old(store).snapshots().len(),
        sync_fits(observations@, camera_bounds),
    ensures
        final(store).snapshots().len() == old(store).snapshots().len(),
        only_bounds_changed(old(store)@, final(store)@),
        r is Ok <==> no_failure(observations@),
        r matches Ok(infos) ==> {
            &&& infos@.map_values(|d: DockedWindowInfo| d@) == synced_infos(
                observations@,
                camera_bounds,
            )
            &&& infos@.len() == read_count(observations@)
            &&& forall|j: int|
                0 <= j < observations@.len() && (#[trigger] observations@[j]) is Read ==> {
                    let k = read_count(observations@.take(j)) as int;
                    &&& k < infos@.len()
                    &&& infos@[k]@ == docked_info_of(
                        observations@[j]->window,
                        virtual_bounds_of(camera_bounds, observations@[j]->viewport_bounds),
                    )
                }
            &&& forall|j: int|
                0 <= j < observations@.len() ==> #[trigger] final(store).snapshots()[j]
                    == synced_snapshot(old(store).snapshots()[j], camera_bounds, observations@[j])
        },
        r matches Err(e) ==> exists|f: int|
            {
                &&& 0 <= f < observations@.len()
                &&& no_failure(#[trigger] observations@.take(f))
                &&& observations@[f] == BoundsObservation::Failed(e)
                &&& forall|j: int|
                    0 <= j < observations@.len() ==> #[trigger] final(store).snapshots()[j] == (
                    if j < f {
                        synced_snapshot(old(store).snapshots()[j], camera_bounds, observations@[j])
                    } else {
                        old(store).snapshots()[j]
                    })
            },
{
    let n: usize = store.len();
    let ghost before = store.snapshots();
    let ghost obs = observations@;
    let ghost docked = store@;
    proof {
        lemma_only_bounds_changed_refl(docked);
    }
    let mut synced: Vec<DockedWindowInfo> = Vec::new();
    let mut i: usize = 0;
    while i < n
        invariant
            n == before.len(),
            before == old(store).snapshots(),
            docked == old(store)@,
            only_bounds_changed(docked, store@),
            obs == observations@,
            obs.len() == n,
            sync_fits(obs, camera_bounds),
            i <= n,
            store.snapshots().len() == n,
            forall|j: int|
                0 <= j < n ==> #[trigger] store.snapshots()[j] == (if j < i {
                    synced_snapshot(before[j], camera_bounds, obs[j])
                } else {
                    before[j]
                }),
            no_failure(obs.take(i as int)),
            synced@.map_values(|d: DockedWindowInfo| d@) == synced_infos(
                obs.take(i as int),
                camera_bounds,
            ),
        decreases n - i,
    {
        assert(obs.take(i + 1).drop_last() =~= obs.take(i as int));
        match &observations[i] {
            BoundsObservation::Gone => {},
            BoundsObservation::Read { viewport_bounds, window } => {
                assert(no_failure(obs.take(i as int)));
                let virtual_bounds = virtual_child_bounds(camera_bounds, *viewport_bounds);
                let ghost current = store@;
                store.set_virtual_bounds_at(i, virtual_bounds);
                proof {
                    lemma_only_bounds_changed_trans(docked, current, store@);
                }
                synced.push(docked_window_info(window.clone(), virtual_bounds));
            },
            BoundsObservation::Failed(message) => {
                let e = message.clone();
                assert(obs[i as int] == BoundsObservation::Failed(e));
                assert(no_failure(obs.take(i as int)));
                let ghost f = i as int;
                assert(0 <= f < obs.len() && no_failure(obs.take(f)) && obs[f]
                    == BoundsObservation::Failed(e));
                return Err(e);
            },
        }
        assert(synced@.map_values(|d: DockedWindowInfo| d@) =~= synced_infos(
            obs.take(i + 1),
            camera_bounds,
        ));
        assert(no_failure(obs.take(i + 1))) by {
            assert forall|j: int| 0 <= j < i + 1 implies !(#[trigger] obs.take(i + 1)[j] is Failed) by {
                if j < i {
                    assert(obs.take(i + 1)[j] == obs.take(i as int)[j]);
                }
            }
        }
        i = i + 1;
    }
    assert(obs.take(n as int) =~= obs);
    proof {
        lemma_sync_reports_every_read_window(obs, camera_bounds);
        assert forall|j: int| 0 <= j < obs.len() && (#[trigger] obs[j]) is Read implies {
            let k = read_count(obs.take(j)) as int;
            &&& k < synced@.len()
            &&& synced@[k]@ == docked_info_of(
                obs[j]->window,
                virtual_bounds_of(camera_bounds, obs[j]->viewport_bounds),
            )
        } by {
            let k = read_count(obs.take(j)) as int;
            assert(synced@.map_values(|d: DockedWindowInfo| d@)[k] == synced@[k]@);
        }
    }
    Ok(synced)
}

/// Seeing a window through the camera and putting it back on the canvas under
/// the same camera gives its virtual bounds again, so a sync right after a
/// placement leaves every docked window where it was.
pub proof fn lemma_viewport_round_trip(virtual_bounds: DockPanelBounds, camera_bounds: DockPanelBounds)
    requires
        i32::MIN <= virtual_bounds.x - camera_bounds.x <= i32::MAX,
        i32::MIN <= virtual_bounds.y - camera_bounds.y <= i32::MAX,
    ensures
        virtual_bounds_of(camera_bounds, viewport_bounds_of(virtual_bounds, camera_bounds))
            == virtual_bounds,
{
}

/// A newly docked window is never larger than nine tenths of the camera (nor
/// smaller than one pixel), and with a camera at least one pixel wide and high
/// it lies entirely inside the camera.
pub proof fn lemma_centered_inside_camera(
    camera_bounds: DockPanelBounds,
    source_width: i32,
    source_height: i32,
)
    requires
        centering_fits(camera_bounds, source_width, source_height),
    ensures
        ({
            let b = centered_bounds(camera_bounds, source_width, source_height);
            &&& 1 <= b.width && 1 <= b.height
            &&& b.width <= source_width || b.width == 1
            &&& b.height <= source_height || b.height == 1
            &&& camera_bounds.width >= 1 ==> b.width <= ninety_percent(camera_bounds.width as int)
            &&& camera_bounds.height >= 1 ==> b.height <= ninety_percent(
                camera_bounds.height as int,
            )
            &&& camera_bounds.width >= 1 ==> camera_bounds.x <= b.x && b.x + b.width
                <= camera_bounds.x + camera_bounds.width
            &&& camera_bounds.height >= 1 ==> camera_bounds.y <= b.y && b.y + b.height
                <= camera_bounds.y + camera_bounds.height
        }),
{
    let cw = camera_bounds.width as int;
    let ch = camera_bounds.height as int;
    if cw >= 1 {
        assert(1 <= ninety_percent(cw) <= cw);
    }
    if ch >= 1 {
        assert(1 <= ninety_percent(ch) <= ch);
    }
}

// ---------------------------------------------------------------------------
// Committing command outcomes to the dock store
// ---------------------------------------------------------------------------

/// The docked windows after an undock whose restore had `outcome`: the window is
/// forgotten only when its restore succeeded, so a failed undock can be retried.
pub open spec fn undocked_after(
    docked: Map<isize, DockStateSnapshot>,
    hwnd: isize,
    outcome: Result<(), String>,
) -> Map<isize, DockStateSnapshot> {
    if outcome is Ok {
        docked.remove(hwnd)
    } else {
        docked
    }
}

/// The docked windows after a placement request whose native move had `outcome`:
/// the window's virtual bounds change only when the move succeeded and the window
/// is docked.
pub open spec fn positioned_after(
    docked: Map<isize, DockStateSnapshot>,
    hwnd: isize,
    virtual_bounds: DockPanelBounds,
    outcome: Result<(), String>,
) -> Map<isize, DockStateSnapshot> {
    if outcome is Ok && docked.contains_key(hwnd) {
        docked.insert(hwnd, DockStateSnapshot { virtual_bounds, ..docked[hwnd] })
    } else {
        docked
    }
}

/// A placement request, whatever its outcome, changes at most where the placed
/// window sits on the virtual canvas: the same windows stay docked with the same
/// saved state, and every other window is left exactly as it was.
pub proof fn lemma_placement_moves_only_its_window(
    docked: Map<isize, DockStateSnapshot>,
    hwnd: isize,
    virtual_bounds: DockPanelBounds,
    outcome: Result<(), String>,
)
    ensures
        only_bounds_changed(docked, positioned_after(docked, hwnd, virtual_bounds, outcome)),
        positioned_after(docked, hwnd, virtual_bounds, outcome).remove(hwnd) == docked.remove(
            hwnd,
        ),
{
    let after = positioned_after(docked, hwnd, virtual_bounds, outcome);
    assert(after.dom() =~= docked.dom());
    assert(after.remove(hwnd) =~= docked.remove(hwnd));
}

/// Completes an undock request once the window's restore ran with `outcome`:
/// on success the window is forgotten; on failure its snapshot is kept. The
/// request's result is the restore's outcome.
pub fn finish_undock(store: &mut DockStateStore, hwnd: isize, outcome: Result<(), String>) -> (r:
    Result<(), String>)
    ensures
        r == outcome,
        final(store)@ == undocked_after(old(store)@, hwnd, outcome),
        outcome is Err ==> final(store).snapshots() == old(store).snapshots(),
{
    match outcome {
        Ok(done) => {
            store.remove(hwnd);
            Ok(done)
        },
        Err(e) => Err(e),
    }
}

/// Completes a placement request once the native move ran with `outcome`: on
/// success the window's virtual bounds become `virtual_bounds`; on failure the
/// store is left as it was. The request's result is the move's outcome.
pub fn finish_position(
    store: &mut DockStateStore,
    hwnd: isize,
    virtual_bounds: DockPanelBounds,
    outcome: Result<(), String>,
) -> (r: Result<(), String>)
    ensures
        r == outcome,
        final(store)@ == positioned_after(old(store)@, hwnd, virtual_bounds, outcome),
        outcome is Err ==> final(store).snapshots() == old(store).snapshots(),
{
    match outcome {
        Ok(done) => {
            store.set_virtual_bounds(hwnd, virtual_bounds);
            Ok(done)
        },
        Err(e) => Err(e),
    }
}

} // verus!
