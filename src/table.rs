use vstd::prelude::*;
use crate::position::{Position, grid_distance};

verus! {

/// Whether no two entries share a driver id.
pub open spec fn keys_unique(s: Seq<(u32, Position)>) -> bool {
    forall|i: int, j: int| 0 <= i < j < s.len() ==> s[i].0 != s[j].0
}

/// The map that a list of entries with distinct ids stands for.
pub open spec fn entries_map(s: Seq<(u32, Position)>) -> Map<u32, Position>
    decreases s.len(),
{
    if s.len() == 0 {
        Map::empty()
    } else {
        entries_map(s.drop_last()).insert(s.last().0, s.last().1)
    }
}

proof fn lemma_entries_map_dom(s: Seq<(u32, Position)>, k: u32)
    ensures
        entries_map(s).contains_key(k) <==> exists|i: int| 0 <= i < s.len() && s[i].0 == k,
    decreases s.len(),
{
    if s.len() > 0 {
        lemma_entries_map_dom(s.drop_last(), k);
        if entries_map(s.drop_last()).contains_key(k) {
            let i = choose|i: int| 0 <= i < s.drop_last().len() && s.drop_last()[i].0 == k;
            assert(s[i].0 == k);
        }
        if exists|i: int| 0 <= i < s.len() && s[i].0 == k {
            let i = choose|i: int| 0 <= i < s.len() && s[i].0 == k;
            if i < s.len() - 1 {
                assert(s.drop_last()[i].0 == k);
            }
        }
    }
}

proof fn lemma_entries_map_index(s: Seq<(u32, Position)>, i: int)
    requires
        keys_unique(s),
        0 <= i < s.len(),
    ensures
        entries_map(s).contains_key(s[i].0),
        entries_map(s)[s[i].0] == s[i].1,
    decreases s.len(),
{
    if i < s.len() - 1 {
        let t = s.drop_last();
        assert(keys_unique(t));
        lemma_entries_map_index(t, i);
        assert(t[i] == s[i]);
        assert(s.last().0 != s[i].0);
    }
}

proof fn lemma_entries_map_update(s: Seq<(u32, Position)>, i: int, v: Position)
    requires
        keys_unique(s),
        0 <= i < s.len(),
    ensures
        keys_unique(s.update(i, (s[i].0, v))),
        entries_map(s.update(i, (s[i].0, v))) == entries_map(s).insert(s[i].0, v),
    decreases s.len(),
{
    let u = s.update(i, (s[i].0, v));
    assert(keys_unique(u));
    if i == s.len() - 1 {
        assert(u.drop_last() =~= s.drop_last());
        assert(entries_map(u) =~= entries_map(s).insert(s[i].0, v));
    } else {
        let t = s.drop_last();
        assert(keys_unique(t));
        lemma_entries_map_update(t, i, v);
        assert(u.drop_last() =~= t.update(i, (s[i].0, v)));
        assert(u.last() == s.last());
        assert(s.last().0 != s[i].0);
        assert(entries_map(u) =~= entries_map(s).insert(s[i].0, v));
    }
}

/// The leader's table of driver positions, keyed by driver id.
pub struct PositionTable {
    entries: Vec<(u32, Position)>,
}

impl View for PositionTable {
    type V = Map<u32, Position>;

    closed spec fn view(&self) -> Map<u32, Position> {
        entries_map(self.entries@)
    }
}

impl PositionTable {
    /// The table is well formed: each driver id has one entry.
    pub closed spec fn wf(&self) -> bool {
        keys_unique(self.entries@)
    }

    /// An empty table.
    pub fn new() -> (r: Self)
        ensures
            r.wf(),
            r@ == Map::<u32, Position>::empty(),
    {
        PositionTable { entries: Vec::new() }
    }

    /// Number of drivers in the table.
    pub fn len(&self) -> (r: usize)
        requires
            self.wf(),
        ensures
            r == self@.len(),
    {
        proof {
            self.lemma_len();
        }
        self.entries.len()
    }

    proof fn lemma_len(&self)
        requires
            self.wf(),
        ensures
            self.entries@.len() == self@.len(),
    {
        let s = self.entries@;
        let keys = s.map_values(|e: (u32, Position)| e.0);
        assert forall|i: int, j: int| 0 <= i < keys.len() && 0 <= j < keys.len() && i != j
            implies keys[i] != keys[j] by {}
        assert(keys.no_duplicates());
        keys.unique_seq_to_set();
        assert forall|k: u32| #[trigger] self@.dom().contains(k) <==> keys.to_set().contains(k) by {
            lemma_entries_map_dom(s, k);
            if keys.to_set().contains(k) {
                let i = choose|i: int| 0 <= i < keys.len() && keys[i] == k;
                assert(s[i].0 == k);
            }
            if self@.dom().contains(k) {
                let i = choose|i: int| 0 <= i < s.len() && s[i].0 == k;
                assert(keys[i] == k);
            }
        }
        assert(self@.dom() =~= keys.to_set());
    }

    /// The position recorded for driver `id`, if any.
    pub fn get(&self, id: u32) -> (r: Option<Position>)
        requires
            self.wf(),
        ensures
            r == (if self@.contains_key(id) {
                Some(self@[id])
            } else {
                None::<Position>
            }),
    {
        let mut i: usize = 0;
        while i < self.entries.len()
            invariant
                0 <= i <= self.entries@.len(),
                keys_unique(self.entries@),
                forall|j: int| 0 <= j < i ==> self.entries@[j].0 != id,
            decreases self.entries@.len() - i,
        {
            if self.entries[i].0 == id {
                proof {
                    lemma_entries_map_index(self.entries@, i as int);
                }
                return Some(self.entries[i].1);
            }
            i += 1;
        }
        proof {
            lemma_entries_map_dom(self.entries@, id);
        }
        None
    }

    /// Records `pos` as the position of driver `id`, replacing any earlier one.
    pub fn insert(&mut self, id: u32, pos: Position)
        requires
            old(self).wf(),
        ensures
            final(self).wf(),
            final(self)@ == old(self)@.insert(id, pos),
    {
        let mut i: usize = 0;
        while i < self.entries.len()
            invariant
                0 <= i <= self.entries@.len(),
                self.entries@ == old(self).entries@,
                keys_unique(self.entries@),
                forall|j: int| 0 <= j < i ==> self.entries@[j].0 != id,
            decreases self.entries@.len() - i,
        {
            if self.entries[i].0 == id {
                proof {
                    lemma_entries_map_update(self.entries@, i as int, pos);
                }
                self.entries.set(i, (id, pos));
                return;
            }
            i += 1;
        }
        let ghost s = self.entries@;
        self.entries.push((id, pos));
        proof {
            assert(self.entries@.drop_last() =~= s);
        }
    }

    /// The drivers whose distance to `source` is at most `max`, each paired
    /// with that distance, in table order.
    pub fn distances_within(&self, source: &Position, max: u32) -> (r: Vec<(u32, u32)>)
        requires
            self.wf(),
        ensures
            r@.map_values(|p: (u32, u32)| p.1).no_duplicates(),
            forall|k: int|
                0 <= k < r@.len() ==> self@.contains_key(#[trigger] r@[k].1) && r@[k].0
                    == grid_distance(self@[r@[k].1], *source) && r@[k].0 <= max,
            forall|id: u32|
                self@.contains_key(id) && grid_distance(self@[id], *source) <= max ==> exists|
                    k: int,
                | 0 <= k < r@.len() && #[trigger] r@[k].1 == id,
    {
        let mut r: Vec<(u32, u32)> = Vec::new();
        let mut i: usize = 0;
        let ghost s = self.entries@;
        while i < self.entries.len()
            invariant
                s == self.entries@,
                keys_unique(s),
                0 <= i <= s.len(),
                forall|k: int|
                    0 <= k < r@.len() ==> exists|j: int|
                        0 <= j < i && s[j].0 == #[trigger] r@[k].1,
                forall|a: int, b: int| 0 <= a < b < r@.len() ==> r@[a].1 != r@[b].1,
                forall|k: int|
                    0 <= k < r@.len() ==> entries_map(s).contains_key(#[trigger] r@[k].1)
                        && r@[k].0 == grid_distance(entries_map(s)[r@[k].1], *source) && r@[k].0
                        <= max,
                forall|j: int|
                    0 <= j < i && grid_distance(s[j].1, *source) <= max ==> exists|k: int|
                        0 <= k < r@.len() && #[trigger] r@[k].1 == s[j].0,
            decreases s.len() - i,
        {
            let (id, pos) = self.entries[i];
            let d = pos.distance_to(source);
            proof {
                lemma_entries_map_index(s, i as int);
            }
            if d <= max {
                let ghost r0 = r@;
                r.push((d, id));
                proof {
                    assert(r@[r@.len() - 1].1 == s[i as int].0);
                    assert forall|k: int| 0 <= k < r@.len() implies exists|j: int|
                        0 <= j < i + 1 && s[j].0 == #[trigger] r@[k].1 by {
                        if k < r0.len() {
                            assert(r@[k] == r0[k]);
                        }
                    }
                    assert forall|a: int, b: int| 0 <= a < b < r@.len() implies r@[a].1
                        != r@[b].1 by {
                        if b == r@.len() - 1 {
                            assert(r@[a] == r0[a]);
                            let j = choose|j: int| 0 <= j < i && s[j].0 == r0[a].1;
                        }
                    }
                    assert forall|j: int|
                        0 <= j < i + 1 && grid_distance(s[j].1, *source) <= max implies exists|
                            k: int,
                        | 0 <= k < r@.len() && #[trigger] r@[k].1 == s[j].0 by {
                        if j < i {
                            let k = choose|k: int| 0 <= k < r0.len() && #[trigger] r0[k].1 == s[j].0;
                            assert(r@[k] == r0[k]);
                        } else {
                            assert(r@[r@.len() - 1].1 == s[j].0);
                        }
                    }
                }
            }
            i += 1;
        }
        proof {
            let ids = r@.map_values(|p: (u32, u32)| p.1);
            assert forall|a: int, b: int| 0 <= a < ids.len() && 0 <= b < ids.len() && a != b
                implies ids[a] != ids[b] by {
                if a < b {
                } else {
                }
            }
            assert forall|id: u32|
                entries_map(s).contains_key(id) && grid_distance(entries_map(s)[id], *source)
                    <= max implies exists|k: int| 0 <= k < r@.len() && #[trigger] r@[k].1 == id by {
                lemma_entries_map_dom(s, id);
                let j = choose|j: int| 0 <= j < s.len() && s[j].0 == id;
                lemma_entries_map_index(s, j);
            }
        }
        r
    }
}

} // verus!
