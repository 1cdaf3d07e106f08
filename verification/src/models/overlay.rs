use vstd::prelude::*;

use super::DockPanelBounds;

verus! {

/// A width and a height.
#[derive(Debug, Clone, Copy, PartialEq, Eq, Structural)]
pub struct OverlaySize {
    pub width: i32,
    pub height: i32,
}

/// One overlay webview: where it loads from, whether it shows, where it sits,
/// and the limits on its size.
#[derive(Debug)]
pub struct OverlayConfig {
    pub id: String,
    pub route: String,
    pub visible: bool,
    pub bounds: DockPanelBounds,
    pub min_size: OverlaySize,
    pub max_size: OverlaySize,
    pub minimize_size: OverlaySize,
}

/// The mathematical value of an [`OverlayConfig`]: its strings taken as character sequences.
pub struct OverlayConfigView {
    pub id: Seq<char>,
    pub route: Seq<char>,
    pub visible: bool,
    pub bounds: DockPanelBounds,
    pub min_size: OverlaySize,
    pub max_size: OverlaySize,
    pub minimize_size: OverlaySize,
}

impl View for OverlayConfig {
    type V = OverlayConfigView;

    open spec fn view(&self) -> OverlayConfigView {
        OverlayConfigView {
            id: self.id@,
            route: self.route@,
            visible: self.visible,
            bounds: self.bounds,
            min_size: self.min_size,
            max_size: self.max_size,
            minimize_size: self.minimize_size,
        }
    }
}

impl Clone for OverlayConfig {
    fn clone(&self) -> (r: Self)
        ensures
            r == *self,
    {
        OverlayConfig {
            id: self.id.clone(),
            route: self.route.clone(),
            visible: self.visible,
            bounds: self.bounds,
            min_size: self.min_size,
            max_size: self.max_size,
            minimize_size: self.minimize_size,
        }
    }
}

/// The size an overlay takes when minimized, for configuration files written
/// before that size could be configured.
pub open spec fn spec_default_minimize_size() -> OverlaySize {
    OverlaySize { width: 200, height: 42 }
}

/// The size an overlay takes when minimized, for configuration files written
/// before that size could be configured.
pub fn default_minimize_size() -> (r: OverlaySize)
    ensures
        r == spec_default_minimize_size(),
{
    OverlaySize { width: 200, height: 42 }
}

/// A table entry taken as values: the key and the configuration it maps to.
pub type OverlayEntry = (Seq<char>, OverlayConfigView);

/// No key occurs twice in the entries.
pub open spec fn keys_distinct(s: Seq<OverlayEntry>) -> bool {
    forall|i: int, j: int|
        0 <= i < s.len() && 0 <= j < s.len() && i != j ==> #[trigger] s[i].0 != #[trigger] s[j].0
}

/// Some entry has key `k`.
pub open spec fn has_key(s: Seq<OverlayEntry>, k: Seq<char>) -> bool {
    exists|i: int| 0 <= i < s.len() && #[trigger] s[i].0 == k
}

/// The position of an entry with key `k`, where there is one.
pub open spec fn key_index(s: Seq<OverlayEntry>, k: Seq<char>) -> int {
    choose|i: int| 0 <= i < s.len() && #[trigger] s[i].0 == k
}

/// The entries taken as a map from key to configuration.
pub open spec fn entries_map(s: Seq<OverlayEntry>) -> Map<Seq<char>, OverlayConfigView> {
    Map::new(|k: Seq<char>| has_key(s, k), |k: Seq<char>| s[key_index(s, k)].1)
}

/// With distinct keys, the map holds each entry under its own key.
pub proof fn lemma_entries_map_at(s: Seq<OverlayEntry>, i: int)
    requires
        keys_distinct(s),
        0 <= i < s.len(),
    ensures
        has_key(s, s[i].0),
        key_index(s, s[i].0) == i,
        entries_map(s).contains_key(s[i].0),
        entries_map(s)[s[i].0] == s[i].1,
{
    assert(has_key(s, s[i].0));
    let j: int = key_index(s, s[i].0);
    assert(s[j].0 == s[i].0);
}

/// An overlay table keyed by overlay name, in the order in which the keys were
/// first inserted. No key occurs twice.
pub struct OverlayConfigFile {
    overlays: Vec<(String, OverlayConfig)>,
}

impl OverlayConfigFile {
    /// The entries as values, in table order.
    pub closed spec fn entry_seq(&self) -> Seq<OverlayEntry> {
        self.overlays@.map_values(|e: (String, OverlayConfig)| (e.0@, e.1@))
    }

    #[verifier::type_invariant]
    spec fn inv(&self) -> bool {
        keys_distinct(self.entry_seq())
    }

    /// An empty table.
    pub fn new() -> (r: Self)
        ensures
            r.entry_seq() == Seq::<OverlayEntry>::empty(),
            r@ == Map::<Seq<char>, OverlayConfigView>::empty(),
    {
        let r = OverlayConfigFile { overlays: Vec::new() };
        assert(r.entry_seq() =~= Seq::<OverlayEntry>::empty());
        assert(r@ =~= Map::<Seq<char>, OverlayConfigView>::empty());
        r
    }

    /// The number of entries.
    pub fn len(&self) -> (r: usize)
        ensures
            r == self.entry_seq().len(),
            keys_distinct(self.entry_seq()),
    {
        proof {
            use_type_invariant(self);
        }
        self.overlays.len()
    }

    /// The key of the entry at `i`.
    pub fn key_at(&self, i: usize) -> (r: &String)
        requires
            i < self.entry_seq().len(),
        ensures
            r@ == self.entry_seq()[i as int].0,
    {
        &self.overlays[i].0
    }

    /// The configuration of the entry at `i`.
    pub fn config_at(&self, i: usize) -> (r: &OverlayConfig)
        requires
            i < self.entry_seq().len(),
        ensures
            r@ == self.entry_seq()[i as int].1,
    {
        &self.overlays[i].1
    }

    /// The position of the entry with key `id`, if there is one.
    pub fn find(&self, id: &str) -> (r: Option<usize>)
        ensures
            r is Some <==> has_key(self.entry_seq(), id@),
            r matches Some(i) ==> i == key_index(self.entry_seq(), id@) && i < self.entry_seq().len(),
            keys_distinct(self.entry_seq()),
    {
        proof {
            use_type_invariant(self);
        }
        let key = String::from_str(id);
        let n: usize = self.overlays.len();
        let mut i: usize = 0;
        while i < n
            invariant
                n == self.entry_seq().len(),
                keys_distinct(self.entry_seq()),
                key@ == id@,
                i <= n,
                forall|j: int| 0 <= j < i ==> self.entry_seq()[j].0 != id@,
            decreases n - i,
        {
            if self.overlays[i].0 == key {
                proof {
                    lemma_entries_map_at(self.entry_seq(), i as int);
                }
                return Some(i);
            }
            i = i + 1;
        }
        assert(!has_key(self.entry_seq(), id@));
        None
    }

    /// The configuration stored under `id`, if any.
    pub fn get(&self, id: &str) -> (r: Option<&OverlayConfig>)
        ensures
            r is Some <==> self@.contains_key(id@),
            r matches Some(c) ==> c@ == self@[id@],
    {
        proof {
            use_type_invariant(self);
        }
        match self.find(id) {
            Some(i) => {
                proof {
                    lemma_entries_map_at(self.entry_seq(), i as int);
                }
                Some(&self.overlays[i].1)
            },
            None => None,
        }
    }

    /// Replaces the configuration of the entry at `i`, keeping its key and place.
    pub fn set_config_at(&mut self, i: usize, config: OverlayConfig)
        requires
            i < old(self).entry_seq().len(),
        ensures
            final(self).entry_seq() == old(self).entry_seq().update(
                i as int,
                (old(self).entry_seq()[i as int].0, config@),
            ),
    {
        proof {
            use_type_invariant(&*self);
        }
        let ghost before = self.entry_seq();
        let mut entries = Vec::new();
        std::mem::swap(&mut entries, &mut self.overlays);
        let key = entries[i].0.clone();
        entries.set(i, (key, config));
        assert(entries@.map_values(|e: (String, OverlayConfig)| (e.0@, e.1@)) =~= before.update(
            i as int,
            (before[i as int].0, config@),
        ));
        self.overlays = entries;
    }

    /// Stores `config` under `id`: in place when the key is present, at the end otherwise.
    pub fn insert(&mut self, id: String, config: OverlayConfig)
        ensures
            final(self)@ == old(self)@.insert(id@, config@),
            final(self).entry_seq() == (if has_key(old(self).entry_seq(), id@) {
                old(self).entry_seq().update(
                    key_index(old(self).entry_seq(), id@),
                    (id@, config@),
                )
            } else {
                old(self).entry_seq().push((id@, config@))
            }),
    {
        proof {
            use_type_invariant(&*self);
        }
        let ghost before = self.entry_seq();
        match self.find(id.as_str()) {
            Some(i) => {
                proof {
                    lemma_entries_map_at(before, i as int);
                }
                self.set_config_at(i, config);
                proof {
                    use_type_invariant(&*self);
                    let after = self.entry_seq();
                    assert(after =~= before.update(i as int, (id@, config@)));
                    assert forall|k: Seq<char>|
                        #[trigger] entries_map(after).contains_key(k) == entries_map(
                            before,
                        ).insert(id@, config@).contains_key(k) by {
                        if has_key(after, k) {
                            let j: int = key_index(after, k);
                            if j != i {
                                assert(before[j].0 == k);
                            }
                        }
                        if has_key(before, k) {
                            let j: int = key_index(before, k);
                            assert(after[j].0 == k);
                        }
                    }
                    assert forall|k: Seq<char>| #[trigger]
                        entries_map(after).contains_key(k) implies entries_map(after)[k]
                        == entries_map(before).insert(id@, config@)[k] by {
                        let j: int = key_index(after, k);
                        lemma_entries_map_at(after, j);
                        if j != i {
                            lemma_entries_map_at(before, j);
                        }
                    }
                    assert(self@ =~= old(self)@.insert(id@, config@));
                }
            },
            None => {
                let mut entries = Vec::new();
                std::mem::swap(&mut entries, &mut self.overlays);
                entries.push((id, config));
                assert(entries@.map_values(|e: (String, OverlayConfig)| (e.0@, e.1@)) =~= before.push(
                    (id@, config@),
                ));
                self.overlays = entries;
                proof {
                    let after = self.entry_seq();
                    assert(keys_distinct(after));
                    assert forall|k: Seq<char>|
                        #[trigger] entries_map(after).contains_key(k) == entries_map(
                            before,
                        ).insert(id@, config@).contains_key(k) by {
                        if has_key(after, k) {
                            let j: int = key_index(after, k);
                            if j < before.len() {
                                assert(before[j].0 == k);
                            }
                        }
                        if has_key(before, k) {
                            let j: int = key_index(before, k);
                            assert(after[j].0 == k);
                        }
                        if k == id@ {
                            assert(after[before.len() as int].0 == k);
                        }
                    }
                    assert forall|k: Seq<char>| #[trigger]
                        entries_map(after).contains_key(k) implies entries_map(after)[k]
                        == entries_map(before).insert(id@, config@)[k] by {
                        let j: int = key_index(after, k);
                        lemma_entries_map_at(after, j);
                        if j < before.len() {
                            lemma_entries_map_at(before, j);
                        }
                    }
                    assert(self@ =~= old(self)@.insert(id@, config@));
                }
            },
        }
    }
}

impl View for OverlayConfigFile {
    type V = Map<Seq<char>, OverlayConfigView>;

    open spec fn view(&self) -> Map<Seq<char>, OverlayConfigView> {
        entries_map(self.entry_seq())
    }
}

} // verus!
