//! A write-once key-value store, as the address dedup writer uses it: each key
//! keeps the first value written for it.

use vstd::prelude::*;
use crate::entries::{EntriesAdded, EntryAdded};

verus! {

/// A store with set-if-absent writes. Keys are unique among `pairs`.
pub struct SpaceStore {
    pairs: Vec<(String, String)>,
}

/// The map that a sequence of key-value pairs stands for.
pub open spec fn pairs_map(pairs: Seq<(String, String)>) -> Map<Seq<char>, Seq<char>>
    decreases pairs.len(),
{
    if pairs.len() == 0 {
        Map::empty()
    } else {
        pairs_map(pairs.drop_last()).insert(pairs.last().0@, pairs.last().1@)
    }
}

/// The store after writing `value` under `key` only if `key` has no value yet.
pub open spec fn set_if_absent_spec(
    m: Map<Seq<char>, Seq<char>>,
    key: Seq<char>,
    value: Seq<char>,
) -> Map<Seq<char>, Seq<char>> {
    if m.contains_key(key) {
        m
    } else {
        m.insert(key, value)
    }
}

/// The store after writing each entry's space address under itself, in order.
pub open spec fn spaces_written(
    m: Map<Seq<char>, Seq<char>>,
    entries: Seq<<EntryAdded as View>::V>,
) -> Map<Seq<char>, Seq<char>>
    decreases entries.len(),
{
    if entries.len() == 0 {
        m
    } else {
        let space = entries.last().4;
        set_if_absent_spec(spaces_written(m, entries.drop_last()), space, space)
    }
}

impl View for SpaceStore {
    type V = Map<Seq<char>, Seq<char>>;

    closed spec fn view(&self) -> Self::V {
        pairs_map(self.pairs@)
    }
}

proof fn lemma_pairs_map_keys(pairs: Seq<(String, String)>, key: Seq<char>)
    ensures
        pairs_map(pairs).contains_key(key) <==> exists|j: int| 0 <= j < pairs.len() && #[trigger] pairs[j].0@ == key,
    decreases pairs.len(),
{
    if pairs.len() > 0 {
        let p = pairs.drop_last();
        lemma_pairs_map_keys(p, key);
        if exists|j: int| 0 <= j < p.len() && #[trigger] p[j].0@ == key {
            let j = choose|j: int| 0 <= j < p.len() && #[trigger] p[j].0@ == key;
            assert(pairs[j] == p[j]);
        }
        if exists|j: int| 0 <= j < pairs.len() && #[trigger] pairs[j].0@ == key {
            let j = choose|j: int| 0 <= j < pairs.len() && #[trigger] pairs[j].0@ == key;
            if j < p.len() {
                assert(pairs[j] == p[j]);
            }
        }
    }
}

proof fn lemma_pairs_map_value(pairs: Seq<(String, String)>, j: int)
    requires
        0 <= j < pairs.len(),
        forall|a: int, b: int| 0 <= a < b < pairs.len() ==> #[trigger] pairs[a].0@ != #[trigger] pairs[b].0@,
    ensures
        pairs_map(pairs).contains_key(pairs[j].0@),
        pairs_map(pairs)[pairs[j].0@] == pairs[j].1@,
    decreases pairs.len(),
{
    let p = pairs.drop_last();
    if j < p.len() {
        assert(p[j] == pairs[j]);
        assert forall|a: int, b: int| 0 <= a < b < p.len() implies #[trigger] p[a].0@ != #[trigger] p[b].0@ by {
            assert(p[a] == pairs[a]);
            assert(p[b] == pairs[b]);
        }
        lemma_pairs_map_value(p, j);
        assert(pairs[j].0@ != pairs[pairs.len() - 1].0@);
    }
}

impl SpaceStore {
    /// Keys are unique.
    pub closed spec fn wf(&self) -> bool {
        forall|a: int, b: int|
            0 <= a < b < self.pairs@.len() ==> #[trigger] self.pairs@[a].0@ != #[trigger] self.pairs@[b].0@
    }

    /// An empty store.
    pub fn new() -> (r: SpaceStore)
        ensures
            r.wf(),
            r@ == Map::<Seq<char>, Seq<char>>::empty(),
    {
        SpaceStore { pairs: Vec::new() }
    }

    fn position(&self, key: &String) -> (r: Option<usize>)
        ensures
            match r {
                Some(j) => j < self.pairs@.len() && self.pairs@[j as int].0@ == key@,
                None => forall|j: int| 0 <= j < self.pairs@.len() ==> #[trigger] self.pairs@[j].0@ != key@,
            },
    {
        let mut i: usize = 0;
        while i < self.pairs.len()
            invariant
                i <= self.pairs@.len(),
                forall|j: int| 0 <= j < i ==> #[trigger] self.pairs@[j].0@ != key@,
            decreases self.pairs.len() - i,
        {
            if self.pairs[i].0 == *key {
                return Some(i);
            }
            i += 1;
        }
        None
    }

    /// The value stored under `key`, if any.
    pub fn get(&self, key: &String) -> (r: Option<String>)
        requires
            self.wf(),
        ensures
            match r {
                Some(v) => self@.contains_key(key@) && self@[key@] == v@,
                None => !self@.contains_key(key@),
            },
    {
        proof {
            lemma_pairs_map_keys(self.pairs@, key@);
        }
        match self.position(key) {
            Some(j) => {
                proof {
                    lemma_pairs_map_value(self.pairs@, j as int);
                }
                Some(self.pairs[j].1.clone())
            },
            None => None,
        }
    }

    /// Writes `value` under `key` unless `key` already has a value; an existing
    /// value is never replaced.
    pub fn set_if_absent(&mut self, key: &String, value: &String)
        requires
            old(self).wf(),
        ensures
            final(self).wf(),
            final(self)@ == set_if_absent_spec(old(self)@, key@, value@),
    {
        proof {
            lemma_pairs_map_keys(self.pairs@, key@);
        }
        if self.position(key).is_none() {
            let ghost before = self.pairs@;
            self.pairs.push((key.clone(), value.clone()));
            proof {
                assert(self.pairs@.drop_last() =~= before);
                assert forall|a: int, b: int|
                    0 <= a < b < self.pairs@.len() implies #[trigger] self.pairs@[a].0@
                    != #[trigger] self.pairs@[b].0@ by {
                    if b < before.len() {
                        assert(self.pairs@[a] == before[a]);
                        assert(self.pairs@[b] == before[b]);
                    } else {
                        assert(self.pairs@[a] == before[a]);
                    }
                }
            }
        }
    }

    /// Records the space address of each entry under itself, first writer
    /// winning, in the entries' order.
    pub fn record_spaces(&mut self, entries: &EntriesAdded)
        requires
            old(self).wf(),
        ensures
            final(self).wf(),
            final(self)@ == spaces_written(old(self)@, entries@),
    {
        let ghost start = self@;
        let mut i: usize = 0;
        while i < entries.entries.len()
            invariant
                self.wf(),
                i <= entries.entries@.len(),
                self@ == spaces_written(start, entries@.subrange(0, i as int)),
            decreases entries.entries.len() - i,
        {
            let space = &entries.entries[i].space;
            self.set_if_absent(space, space);
            proof {
                assert(entries@.subrange(0, i as int + 1).drop_last() =~= entries@.subrange(0, i as int));
            }
            i += 1;
        }
        proof {
            assert(entries@.subrange(0, entries.entries@.len() as int) =~= entries@);
        }
    }
}

/// Dedup idempotence: writing a key a second time leaves the store as the
/// first write left it, whatever value the second write carries.
pub proof fn lemma_set_if_absent_idempotent(
    m: Map<Seq<char>, Seq<char>>,
    key: Seq<char>,
    first: Seq<char>,
    second: Seq<char>,
)
    ensures
        set_if_absent_spec(set_if_absent_spec(m, key, first), key, second) == set_if_absent_spec(
            m,
            key,
            first,
        ),
        set_if_absent_spec(m, key, first)[key] == (if m.contains_key(key) {
            m[key]
        } else {
            first
        }),
{
}

} // verus!
