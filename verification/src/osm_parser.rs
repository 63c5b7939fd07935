//! The parts of parsed OpenStreetMap data that the classifiers read: tag
//! sets, nodes placed on the block grid, and ways.
use vstd::prelude::*;
use crate::text::str_eq;

verus! {

/// The tags of an OSM element: each key appears at most once.
pub struct Tags {
    entries: Vec<(String, String)>,
}

/// The value stored under `key`, if any.
pub open spec fn tag(tags: Map<Seq<char>, Seq<char>>, key: Seq<char>) -> Option<Seq<char>> {
    if tags.contains_key(key) {
        Some(tags[key])
    } else {
        None
    }
}

impl View for Tags {
    type V = Map<Seq<char>, Seq<char>>;

    closed spec fn view(&self) -> Map<Seq<char>, Seq<char>> {
        Map::new(
            |k: Seq<char>| exists|i: int| 0 <= i < self.entries.len() && #[trigger] self.entries@[i].0@ == k,
            |k: Seq<char>|
                self.entries@[choose|i: int|
                    0 <= i < self.entries.len() && #[trigger] self.entries@[i].0@ == k].1@,
        )
    }
}

impl Tags {
    #[verifier::type_invariant]
    spec fn keys_unique(self) -> bool {
        forall|i: int, j: int|
            0 <= i < self.entries.len() && 0 <= j < self.entries.len() && i != j
                ==> #[trigger] self.entries@[i].0@ != #[trigger] self.entries@[j].0@
    }

    /// The entry at `i` is what the view holds for its key.
    proof fn lemma_entry_in_view(&self, i: int)
        requires
            self.keys_unique(),
            0 <= i < self.entries.len(),
        ensures
            self@.contains_key(self.entries@[i].0@),
            self@[self.entries@[i].0@] == self.entries@[i].1@,
    {
        let k = self.entries@[i].0@;
        assert(self.entries@[i].0@ == k);
        let j = choose|j: int| 0 <= j < self.entries.len() && #[trigger] self.entries@[j].0@ == k;
        assert(i == j);
    }

    /// An empty tag set.
    pub fn new() -> (tags: Tags)
        ensures
            tags@ == Map::<Seq<char>, Seq<char>>::empty(),
    {
        let tags = Tags { entries: Vec::new() };
        assert(tags@ =~= Map::<Seq<char>, Seq<char>>::empty());
        tags
    }

    /// Index of the entry whose key is `key`, if there is one.
    fn find(&self, key: &str) -> (r: Option<usize>)
        ensures
            match r {
                Some(i) => i < self.entries.len() && self.entries@[i as int].0@ == key@,
                None => forall|i: int|
                    0 <= i < self.entries.len() ==> #[trigger] self.entries@[i].0@ != key@,
            },
    {
        let mut i: usize = 0;
        while i < self.entries.len()
            invariant
                0 <= i <= self.entries.len(),
                forall|j: int| 0 <= j < i ==> #[trigger] self.entries@[j].0@ != key@,
            decreases self.entries.len() - i,
        {
            if str_eq(self.entries[i].0.as_str(), key) {
                return Some(i);
            }
            i += 1;
        }
        None
    }

    /// Sets the value stored under `key`, replacing any earlier value.
    pub fn insert(&mut self, key: String, value: String)
        ensures
            final(self)@ == old(self)@.insert(key@, value@),
    {
        proof {
            use_type_invariant(&*self);
        }
        let ghost old_entries = self.entries@;
        let found = self.find(key.as_str());
        let mut entries: Vec<(String, String)> = Vec::new();
        std::mem::swap(&mut entries, &mut self.entries);
        match found {
            Some(i) => {
                entries.set(i, (key, value));
            },
            None => {
                entries.push((key, value));
            },
        }
        self.entries = entries;
        proof {
            use_type_invariant(&*self);
            let idx: int = match found {
                Some(i) => i as int,
                None => old_entries.len() as int,
            };
            assert(self.entries@[idx].0@ == key@);
            assert(self.entries@[idx].1@ == value@);
            assert(forall|j: int|
                0 <= j < old_entries.len() && j != idx ==> self.entries@[j] == old_entries[j]);
            assert forall|k: Seq<char>| #[trigger] self@.contains_key(k) == old(self)@.insert(
                key@,
                value@,
            ).contains_key(k) by {
                if k == key@ {
                    assert(self.entries@[idx].0@ == k);
                } else {
                    if self@.contains_key(k) {
                        let j = choose|j: int|
                            0 <= j < self.entries.len() && #[trigger] self.entries@[j].0@ == k;
                        assert(j != idx);
                        assert(old_entries[j].0@ == k);
                    }
                    if old(self)@.contains_key(k) {
                        let j = choose|j: int|
                            0 <= j < old_entries.len() && #[trigger] old_entries[j].0@ == k;
                        assert(j != idx);
                        assert(self.entries@[j].0@ == k);
                    }
                }
            }
            assert forall|k: Seq<char>| #[trigger] self@.contains_key(k) implies self@[k] == old(
                self,
            )@.insert(key@, value@)[k] by {
                let j = choose|j: int|
                    0 <= j < self.entries.len() && #[trigger] self.entries@[j].0@ == k;
                self.lemma_entry_in_view(j);
                if k != key@ {
                    assert(j != idx);
                    old(self).lemma_entry_in_view(j);
                }
            }
            assert(self@ =~= old(self)@.insert(key@, value@));
        }
    }

    /// The value stored under `key`.
    pub fn get(&self, key: &str) -> (r: Option<&String>)
        ensures
            match r {
                Some(v) => tag(self@, key@) == Some(v@),
                None => tag(self@, key@) == None::<Seq<char>>,
            },
    {
        proof {
            use_type_invariant(self);
        }
        match self.find(key) {
            Some(i) => {
                proof {
                    self.lemma_entry_in_view(i as int);
                }
                Some(&self.entries[i].1)
            },
            None => None,
        }
    }

    /// True when some value is stored under `key`.
    pub fn contains_key(&self, key: &str) -> (r: bool)
        ensures
            r == self@.contains_key(key@),
    {
        proof {
            use_type_invariant(self);
        }
        match self.find(key) {
            Some(i) => {
                proof {
                    self.lemma_entry_in_view(i as int);
                }
                true
            },
            None => false,
        }
    }
}

/// An OSM node, with its position on the block grid.
pub struct ProcessedNode {
    pub id: u64,
    pub tags: Tags,
    pub x: i32,
    pub z: i32,
}

/// An OSM way: its nodes in order and its tags.
pub struct ProcessedWay {
    pub id: u64,
    pub nodes: Vec<ProcessedNode>,
    pub tags: Tags,
}

/// A parsed OSM element.
pub enum ProcessedElement {
    Node(ProcessedNode),
    Way(ProcessedWay),
}

} // verus!
