use vstd::prelude::*;

use crate::models::{DockPanelBounds, DockStateSnapshot};

verus! {

/// No window occurs twice among the snapshots.
pub open spec fn hwnds_distinct(s: Seq<DockStateSnapshot>) -> bool {
    forall|i: int, j: int|
        0 <= i < s.len() && 0 <= j < s.len() && i != j ==> #[trigger] s[i].hwnd
            != #[trigger] s[j].hwnd
}

/// Some snapshot belongs to window `hwnd`.
pub open spec fn has_hwnd(s: Seq<DockStateSnapshot>, hwnd: isize) -> bool {
    exists|i: int| 0 <= i < s.len() && #[trigger] s[i].hwnd == hwnd
}

/// The position of the snapshot of window `hwnd`, where there is one.
pub open spec fn hwnd_index(s: Seq<DockStateSnapshot>, hwnd: isize) -> int {
    choose|i: int| 0 <= i < s.len() && #[trigger] s[i].hwnd == hwnd
}

/// The snapshots taken as a map from window to snapshot.
pub open spec fn snapshot_map(s: Seq<DockStateSnapshot>) -> Map<isize, DockStateSnapshot> {
    Map::new(|h: isize| has_hwnd(s, h), |h: isize| s[hwnd_index(s, h)])
}

/// With distinct windows, the map holds each snapshot under its own window.
pub proof fn lemma_snapshot_map_at(s: Seq<DockStateSnapshot>, i: int)
    requires
        hwnds_distinct(s),
        0 <= i < s.len(),
    ensures
        has_hwnd(s, s[i].hwnd),
        hwnd_index(s, s[i].hwnd) == i,
        snapshot_map(s).contains_key(s[i].hwnd),
        snapshot_map(s)[s[i].hwnd] == s[i],
{
    assert(has_hwnd(s, s[i].hwnd));
    let j: int = hwnd_index(s, s[i].hwnd);
    assert(s[j].hwnd == s[i].hwnd);
}

/// Replacing a snapshot by one of the same window replaces it in the map.
pub proof fn lemma_snapshot_map_update(s: Seq<DockStateSnapshot>, i: int, v: DockStateSnapshot)
    requires
        hwnds_distinct(s),
        0 <= i < s.len(),
        v.hwnd == s[i].hwnd,
    ensures
        hwnds_distinct(s.update(i, v)),
        snapshot_map(s.update(i, v)) == snapshot_map(s).insert(v.hwnd, v),
{
    let t = s.update(i, v);
    assert(hwnds_distinct(t)) by {
        assert forall|a: int, b: int|
            0 <= a < t.len() && 0 <= b < t.len() && a != b implies #[trigger] t[a].hwnd
            != #[trigger] t[b].hwnd by {
            assert(t[a].hwnd == s[a].hwnd);
            assert(t[b].hwnd == s[b].hwnd);
        }
    }
    assert forall|h: isize|
        #[trigger] snapshot_map(t).contains_key(h) == snapshot_map(s).insert(
            v.hwnd,
            v,
        ).contains_key(h) by {
        if has_hwnd(t, h) {
            let j: int = hwnd_index(t, h);
            assert(s[j].hwnd == h);
        }
        if has_hwnd(s, h) {
            let j: int = hwnd_index(s, h);
            assert(t[j].hwnd == h);
        }
        assert(t[i].hwnd == v.hwnd);
    }
    assert forall|h: isize| #[trigger]
        snapshot_map(t).contains_key(h) implies snapshot_map(t)[h] == snapshot_map(s).insert(
        v.hwnd,
        v,
    )[h] by {
        let j: int = hwnd_index(t, h);
        lemma_snapshot_map_at(t, j);
        if j != i {
            lemma_snapshot_map_at(s, j);
        }
    }
    assert(snapshot_map(t) =~= snapshot_map(s).insert(v.hwnd, v));
}

/// Two stores hold the same windows with the same saved state; only where the
/// windows sit on the virtual canvas may differ.
pub open spec fn only_bounds_changed(
    before: Map<isize, DockStateSnapshot>,
    after: Map<isize, DockStateSnapshot>,
) -> bool {
    &&& after.dom() == before.dom()
    &&& forall|h: isize| #[trigger]
        before.contains_key(h) ==> after[h] == DockStateSnapshot {
            virtual_bounds: after[h].virtual_bounds,
            ..before[h]
        }
}

/// Changing only virtual bounds, step after step, still changes only virtual bounds.
pub proof fn lemma_only_bounds_changed_trans(
    a: Map<isize, DockStateSnapshot>,
    b: Map<isize, DockStateSnapshot>,
    c: Map<isize, DockStateSnapshot>,
)
    requires
        only_bounds_changed(a, b),
        only_bounds_changed(b, c),
    ensures
        only_bounds_changed(a, c),
{
    assert forall|h: isize| #[trigger] a.contains_key(h) implies c[h] == DockStateSnapshot {
        virtual_bounds: c[h].virtual_bounds,
        ..a[h]
    } by {
        assert(b.contains_key(h));
    }
}

/// A store holds the same windows with the same saved state as itself.
pub proof fn lemma_only_bounds_changed_refl(m: Map<isize, DockStateSnapshot>)
    ensures
        only_bounds_changed(m, m),
{
}

/// The windows currently docked, each with the snapshot that undoes its docking,
/// in the order in which they were docked. No window occurs twice.
///
/// The entries are kept in a vector rather than a hash map: listing and syncing
/// take the window system's readings by docking position, and syncing updates
/// entries while walking them, which needs a stable, indexable order.
pub struct DockStateStore {
    entries: Vec<DockStateSnapshot>,
}

impl DockStateStore {
    /// The snapshots in docking order.
    pub closed spec fn snapshots(&self) -> Seq<DockStateSnapshot> {
        self.entries@
    }

    #[verifier::type_invariant]
    spec fn inv(&self) -> bool {
        hwnds_distinct(self.entries@)
    }

    /// A store with nothing docked.
    pub fn new() -> (r: Self)
        ensures
            r.snapshots() == Seq::<DockStateSnapshot>::empty(),
            r@ == Map::<isize, DockStateSnapshot>::empty(),
    {
        let r = DockStateStore { entries: Vec::new() };
        assert(r@ =~= Map::<isize, DockStateSnapshot>::empty());
        r
    }

    /// The number of docked windows.
    pub fn len(&self) -> (r: usize)
        ensures
            r == self.snapshots().len(),
            hwnds_distinct(self.snapshots()),
    {
        proof {
            use_type_invariant(self);
        }
        self.entries.len()
    }

    /// The snapshot at position `i` in docking order.
    pub fn snapshot_at(&self, i: usize) -> (r: DockStateSnapshot)
        requires
            i < self.snapshots().len(),
        ensures
            r == self.snapshots()[i as int],
    {
        self.entries[i]
    }

    /// The position of the snapshot of `hwnd`, if that window is docked.
    pub fn position_of(&self, hwnd: isize) -> (r: Option<usize>)
        ensures
            r is Some <==> has_hwnd(self.snapshots(), hwnd),
            r matches Some(i) ==> i == hwnd_index(self.snapshots(), hwnd) && i
                < self.snapshots().len(),
    {
        proof {
            use_type_invariant(self);
        }
        let n: usize = self.entries.len();
        let mut i: usize = 0;
        while i < n
            invariant
                n == self.snapshots().len(),
                hwnds_distinct(self.snapshots()),
                i <= n,
                forall|j: int| 0 <= j < i ==> self.snapshots()[j].hwnd != hwnd,
            decreases n - i,
        {
            if self.entries[i].hwnd == hwnd {
                proof {
                    lemma_snapshot_map_at(self.snapshots(), i as int);
                }
                return Some(i);
            }
            i = i + 1;
        }
        None
    }

    /// Whether `hwnd` is docked.
    pub fn contains(&self, hwnd: isize) -> (r: bool)
        ensures
            r == self@.contains_key(hwnd),
    {
        self.position_of(hwnd).is_some()
    }

    /// The snapshot of `hwnd`, if that window is docked.
    pub fn get(&self, hwnd: isize) -> (r: Option<DockStateSnapshot>)
        ensures
            r is Some <==> self@.contains_key(hwnd),
            r matches Some(s) ==> s == self@[hwnd],
    {
        match self.position_of(hwnd) {
            Some(i) => {
                proof {
                    use_type_invariant(self);
                    lemma_snapshot_map_at(self.snapshots(), i as int);
                }
                Some(self.entries[i])
            },
            None => None,
        }
    }

    /// Records `snapshot` under its window: in place when that window is already
    /// docked, after the others otherwise.
    pub fn insert(&mut self, snapshot: DockStateSnapshot)
        ensures
            final(self)@ == old(self)@.insert(snapshot.hwnd, snapshot),
            final(self).snapshots() == (if has_hwnd(old(self).snapshots(), snapshot.hwnd) {
                old(self).snapshots().update(
                    hwnd_index(old(self).snapshots(), snapshot.hwnd),
                    snapshot,
                )
            } else {
                old(self).snapshots().push(snapshot)
            }),
    {
        proof {
            use_type_invariant(&*self);
        }
        let ghost before = self.snapshots();
        match self.position_of(snapshot.hwnd) {
            Some(i) => {
                self.set_at(i, snapshot);
            },
            None => {
                let mut entries = Vec::new();
                std::mem::swap(&mut entries, &mut self.entries);
                entries.push(snapshot);
                proof {
                    let after = entries@;
                    assert(after =~= before.push(snapshot));
                    assert(hwnds_distinct(after)) by {
                        assert forall|a: int, b: int|
                            0 <= a < after.len() && 0 <= b < after.len() && a
                                != b implies #[trigger] after[a].hwnd != #[trigger] after[b].hwnd by {
                            if a < before.len() && b < before.len() {
                            } else if a < before.len() {
                                assert(before[a].hwnd == after[a].hwnd);
                            } else {
                                assert(before[b].hwnd == after[b].hwnd);
                            }
                        }
                    }
                    assert forall|h: isize|
                        #[trigger] snapshot_map(after).contains_key(h) == snapshot_map(
                            before,
                        ).insert(snapshot.hwnd, snapshot).contains_key(h) by {
                        if has_hwnd(after, h) {
                            let j: int = hwnd_index(after, h);
                            if j < before.len() {
                                assert(before[j].hwnd == h);
                            }
                        }
                        if has_hwnd(before, h) {
                            let j: int = hwnd_index(before, h);
                            assert(after[j].hwnd == h);
                        }
                        assert(after[before.len() as int].hwnd == snapshot.hwnd);
                    }
                    assert forall|h: isize| #[trigger]
                        snapshot_map(after).contains_key(h) implies snapshot_map(after)[h]
                        == snapshot_map(before).insert(snapshot.hwnd, snapshot)[h] by {
                        let j: int = hwnd_index(after, h);
                        lemma_snapshot_map_at(after, j);
                        if j < before.len() {
                            lemma_snapshot_map_at(before, j);
                        }
                    }
                    assert(snapshot_map(after) =~= snapshot_map(before).insert(
                        snapshot.hwnd,
                        snapshot,
                    ));
                }
                self.entries = entries;
            },
        }
    }

    /// Replaces the snapshot at position `i` by one of the same window.
    fn set_at(&mut self, i: usize, snapshot: DockStateSnapshot)
        requires
            i < old(self).snapshots().len(),
            old(self).snapshots()[i as int].hwnd == snapshot.hwnd,
        ensures
            final(self).snapshots() == old(self).snapshots().update(i as int, snapshot),
            final(self)@ == old(self)@.insert(snapshot.hwnd, snapshot),
    {
        proof {
            use_type_invariant(&*self);
            lemma_snapshot_map_update(self.snapshots(), i as int, snapshot);
        }
        let mut entries = Vec::new();
        std::mem::swap(&mut entries, &mut self.entries);
        entries.set(i, snapshot);
        self.entries = entries;
    }

    /// Forgets `hwnd` and returns its snapshot, if that window was docked. The
    /// other windows keep their order.
    pub fn remove(&mut self, hwnd: isize) -> (r: Option<DockStateSnapshot>)
        ensures
            final(self)@ == old(self)@.remove(hwnd),
            r is Some <==> old(self)@.contains_key(hwnd),
            r matches Some(s) ==> s == old(self)@[hwnd],
            final(self).snapshots() == (if has_hwnd(old(self).snapshots(), hwnd) {
                old(self).snapshots().remove(hwnd_index(old(self).snapshots(), hwnd))
            } else {
                old(self).snapshots()
            }),
    {
        proof {
            use_type_invariant(&*self);
        }
        let ghost before = self.snapshots();
        match self.position_of(hwnd) {
            Some(i) => {
                proof {
                    lemma_snapshot_map_at(before, i as int);
                }
                let mut entries = Vec::new();
                std::mem::swap(&mut entries, &mut self.entries);
                let removed = entries.remove(i);
                proof {
                    let after = entries@;
                    assert(after =~= before.remove(i as int));
                    assert forall|a: int| 0 <= a < after.len() implies #[trigger] after[a] == (if a
                        < i {
                        before[a]
                    } else {
                        before[a + 1]
                    }) by {}
                    assert(hwnds_distinct(after)) by {
                        assert forall|a: int, b: int|
                            0 <= a < after.len() && 0 <= b < after.len() && a
                                != b implies #[trigger] after[a].hwnd != #[trigger] after[b].hwnd by {
                            let a2: int = if a < i {
                                a
                            } else {
                                a + 1
                            };
                            let b2: int = if b < i {
                                b
                            } else {
                                b + 1
                            };
                            assert(after[a] == before[a2]);
                            assert(after[b] == before[b2]);
                        }
                    }
                    assert forall|h: isize|
                        #[trigger] snapshot_map(after).contains_key(h) == snapshot_map(
                            before,
                        ).remove(hwnd).contains_key(h) by {
                        if has_hwnd(after, h) {
                            let j: int = hwnd_index(after, h);
                            let j2: int = if j < i {
                                j
                            } else {
                                j + 1
                            };
                            assert(before[j2].hwnd == h);
                            assert(j2 != i);
                        }
                        if has_hwnd(before, h) && h != hwnd {
                            let j: int = hwnd_index(before, h);
                            assert(j != i);
                            let j2: int = if j < i {
                                j
                            } else {
                                j - 1
                            };
                            assert(after[j2].hwnd == h);
                        }
                    }
                    assert forall|h: isize| #[trigger]
                        snapshot_map(after).contains_key(h) implies snapshot_map(after)[h]
                        == snapshot_map(before).remove(hwnd)[h] by {
                        let j: int = hwnd_index(after, h);
                        lemma_snapshot_map_at(after, j);
                        let j2: int = if j < i {
                            j
                        } else {
                            j + 1
                        };
                        assert(after[j] == before[j2]);
                        lemma_snapshot_map_at(before, j2);
                    }
                    assert(snapshot_map(after) =~= snapshot_map(before).remove(hwnd));
                }
                self.entries = entries;
                Some(removed)
            },
            None => {
                proof {
                    assert(snapshot_map(before) =~= snapshot_map(before).remove(hwnd));
                }
                None
            },
        }
    }

    /// Sets where `hwnd` sits on the virtual canvas, if that window is docked;
    /// nothing else changes.
    pub fn set_virtual_bounds(&mut self, hwnd: isize, virtual_bounds: DockPanelBounds)
        ensures
            final(self)@ == (if old(self)@.contains_key(hwnd) {
                old(self)@.insert(
                    hwnd,
                    DockStateSnapshot { virtual_bounds, ..old(self)@[hwnd] },
                )
            } else {
                old(self)@
            }),
            final(self).snapshots().len() == old(self).snapshots().len(),
    {
        match self.position_of(hwnd) {
            Some(i) => {
                proof {
                    use_type_invariant(&*self);
                    lemma_snapshot_map_at(self.snapshots(), i as int);
                }
                let current = self.entries[i];
                self.set_at(i, DockStateSnapshot { virtual_bounds, ..current });
            },
            None => {},
        }
    }

    /// Sets where the window at position `i` sits on the virtual canvas.
    pub fn set_virtual_bounds_at(&mut self, i: usize, virtual_bounds: DockPanelBounds)
        requires
            i < old(self).snapshots().len(),
        ensures
            final(self).snapshots() == old(self).snapshots().update(
                i as int,
                DockStateSnapshot { virtual_bounds, ..old(self).snapshots()[i as int] },
            ),
            final(self)@ == old(self)@.insert(
                old(self).snapshots()[i as int].hwnd,
                DockStateSnapshot { virtual_bounds, ..old(self).snapshots()[i as int] },
            ),
            only_bounds_changed(old(self)@, final(self)@),
    {
        proof {
            use_type_invariant(&*self);
            lemma_snapshot_map_at(self.snapshots(), i as int);
        }
        let ghost before = self@;
        let current = self.entries[i];
        self.set_at(i, DockStateSnapshot { virtual_bounds, ..current });
        proof {
            assert(self@.dom() =~= before.dom());
            assert forall|h: isize| #[trigger] before.contains_key(h) implies self@[h]
                == DockStateSnapshot { virtual_bounds: self@[h].virtual_bounds, ..before[h] } by {
                if h != current.hwnd {
                    assert(self@[h] == before[h]);
                }
            }
        }
    }

    /// Empties the store and returns every snapshot it held, in docking order.
    pub fn drain(&mut self) -> (r: Vec<DockStateSnapshot>)
        ensures
            r@ == old(self).snapshots(),
            final(self).snapshots() == Seq::<DockStateSnapshot>::empty(),
            final(self)@ == Map::<isize, DockStateSnapshot>::empty(),
    {
        let mut entries = Vec::new();
        std::mem::swap(&mut entries, &mut self.entries);
        assert(self@ =~= Map::<isize, DockStateSnapshot>::empty());
        entries
    }
}

impl View for DockStateStore {
    type V = Map<isize, DockStateSnapshot>;

    open spec fn view(&self) -> Map<isize, DockStateSnapshot> {
        snapshot_map(self.snapshots())
    }
}

impl Default for DockStateStore {
    fn default() -> (r: Self)
        ensures
            r@ == Map::<isize, DockStateSnapshot>::empty(),
            r.snapshots() == Seq::<DockStateSnapshot>::empty(),
    {
        DockStateStore::new()
    }
}

} // verus!
