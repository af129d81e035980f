//! Permission levels by name: the map from a permission's name to the level that grants it.
use vstd::prelude::*;
use vstd::string::StringExecFns;

verus! {

/// The level recorded for `name` among `entries`, the latest entry for a name counting.
pub open spec fn lookup(entries: Seq<(String, i32)>, name: Seq<char>) -> Option<i32>
    decreases entries.len(),
{
    if entries.len() == 0 {
        None
    } else if entries.last().0@ == name {
        Some(entries.last().1)
    } else {
        lookup(entries.drop_last(), name)
    }
}

/// No name occurs twice among `entries`.
pub open spec fn distinct_names(entries: Seq<(String, i32)>) -> bool {
    forall|i: int, j: int|
        0 <= i < entries.len() && 0 <= j < entries.len() && i != j
            ==> #[trigger] entries[i].0@ != #[trigger] entries[j].0@
}

/// A map from permission names to levels.
pub struct PermissionLevels {
    entries: Vec<(String, i32)>,
}

impl View for PermissionLevels {
    type V = Map<Seq<char>, i32>;

    closed spec fn view(&self) -> Map<Seq<char>, i32> {
        Map::new(
            |name: Seq<char>| lookup(self.entries@, name) is Some,
            |name: Seq<char>| lookup(self.entries@, name)->Some_0,
        )
    }
}

/// With distinct names, the level found for an entry's name is that entry's level.
proof fn lemma_lookup_entry(entries: Seq<(String, i32)>, i: int)
    requires
        distinct_names(entries),
        0 <= i < entries.len(),
    ensures
        lookup(entries, entries[i].0@) == Some(entries[i].1),
    decreases entries.len(),
{
    if i < entries.len() - 1 {
        assert(entries[i].0@ != entries[entries.len() - 1].0@);
        assert(entries.drop_last()[i] == entries[i]);
        lemma_lookup_entry(entries.drop_last(), i);
    }
}

/// A name that is found belongs to some entry.
proof fn lemma_lookup_found(entries: Seq<(String, i32)>, name: Seq<char>) -> (i: int)
    requires
        lookup(entries, name) is Some,
    ensures
        0 <= i < entries.len(),
        entries[i].0@ == name,
        lookup(entries, name) == Some(entries[i].1),
    decreases entries.len(),
{
    if entries.last().0@ == name {
        entries.len() - 1
    } else {
        let j = lemma_lookup_found(entries.drop_last(), name);
        assert(entries.drop_last()[j] == entries[j]);
        j
    }
}

/// A name that belongs to no entry is not found.
proof fn lemma_lookup_absent(entries: Seq<(String, i32)>, name: Seq<char>)
    requires
        forall|i: int| 0 <= i < entries.len() ==> #[trigger] entries[i].0@ != name,
    ensures
        lookup(entries, name) is None,
    decreases entries.len(),
{
    if entries.len() > 0 {
        assert(entries[entries.len() - 1].0@ != name);
        assert forall|i: int| 0 <= i < entries.drop_last().len() implies #[trigger] entries.drop_last()[i].0@ != name by {
            assert(entries.drop_last()[i] == entries[i]);
        }
        lemma_lookup_absent(entries.drop_last(), name);
    }
}

/// Replacing the level of the one entry named `name` changes only what `name` maps to.
proof fn lemma_lookup_update(entries: Seq<(String, i32)>, i: int, entry: (String, i32), other: Seq<char>)
    requires
        distinct_names(entries),
        0 <= i < entries.len(),
        entry.0@ == entries[i].0@,
    ensures
        lookup(entries.update(i, entry), other) == (if other == entry.0@ { Some(entry.1) } else { lookup(entries, other) }),
    decreases entries.len(),
{
    let updated = entries.update(i, entry);
    if i < entries.len() - 1 {
        assert(entries[i].0@ != entries[entries.len() - 1].0@);
        assert(updated.drop_last() =~= entries.drop_last().update(i, entry));
        assert forall|a: int, b: int|
            0 <= a < entries.drop_last().len() && 0 <= b < entries.drop_last().len() && a != b
                implies #[trigger] entries.drop_last()[a].0@ != #[trigger] entries.drop_last()[b].0@ by {
            assert(entries.drop_last()[a] == entries[a]);
            assert(entries.drop_last()[b] == entries[b]);
        }
        lemma_lookup_update(entries.drop_last(), i, entry, other);
    } else {
        assert(updated.drop_last() =~= entries.drop_last());
    }
}

impl PermissionLevels {
    #[verifier::type_invariant]
    spec fn names_are_distinct(self) -> bool {
        distinct_names(self.entries@)
    }

    /// An empty map.
    pub fn new() -> (m: Self)
        ensures
            m@ == Map::<Seq<char>, i32>::empty(),
    {
        let m = PermissionLevels { entries: Vec::new() };
        assert(m@ =~= Map::<Seq<char>, i32>::empty());
        m
    }

    /// The position of the entry named `name`, if there is one.
    fn position(&self, name: &String) -> (p: Option<usize>)
        ensures
            match p {
                Some(i) => i < self.entries@.len() && self.entries@[i as int].0@ == name@,
                None => forall|i: int| 0 <= i < self.entries@.len() ==> #[trigger] self.entries@[i].0@ != name@,
            },
    {
        let mut i: usize = 0;
        while i < self.entries.len()
            invariant
                i <= self.entries@.len(),
                forall|j: int| 0 <= j < i ==> #[trigger] self.entries@[j].0@ != name@,
            decreases self.entries@.len() - i,
        {
            if self.entries[i].0 == *name {
                return Some(i);
            }
            i = i + 1;
        }
        None
    }

    /// The level recorded for `name`, if any.
    pub fn get(&self, name: &str) -> (level: Option<i32>)
        ensures
            level == (if self@.dom().contains(name@) { Some(self@[name@]) } else { None::<i32> }),
    {
        proof { use_type_invariant(self); }
        let key = String::from_str(name);
        match self.position(&key) {
            Some(i) => {
                proof { lemma_lookup_entry(self.entries@, i as int); }
                Some(self.entries[i].1)
            },
            None => {
                proof { lemma_lookup_absent(self.entries@, name@); }
                None
            },
        }
    }

    /// Records `level` for `name`, replacing the level it had.
    pub fn insert(&mut self, name: String, level: i32)
        ensures
            final(self)@ == old(self)@.insert(name@, level),
    {
        proof { use_type_invariant(&*self); }
        let ghost before = self.entries@;
        let position = self.position(&name);
        let mut entries: Vec<(String, i32)> = Vec::new();
        std::mem::swap(&mut entries, &mut self.entries);
        match position {
            Some(i) => {
                let ghost key = name@;
                entries.set(i, (name, level));
                proof {
                    assert(entries@ == before.update(i as int, entries@[i as int]));
                    assert forall|other: Seq<char>| #![auto] lookup(entries@, other) == (if other == key { Some(level) } else { lookup(before, other) }) by {
                        lemma_lookup_update(before, i as int, entries@[i as int], other);
                    }
                    assert forall|a: int, b: int|
                        0 <= a < entries@.len() && 0 <= b < entries@.len() && a != b
                            implies #[trigger] entries@[a].0@ != #[trigger] entries@[b].0@ by {
                        if a != i && b != i {
                            assert(before[a] == entries@[a]);
                            assert(before[b] == entries@[b]);
                        } else if a == i {
                            assert(before[b] == entries@[b]);
                        } else {
                            assert(before[a] == entries@[a]);
                        }
                    }
                }
            },
            None => {
                let ghost key = name@;
                entries.push((name, level));
                proof {
                    assert(entries@.drop_last() =~= before);
                    assert forall|a: int, b: int|
                        0 <= a < entries@.len() && 0 <= b < entries@.len() && a != b
                            implies #[trigger] entries@[a].0@ != #[trigger] entries@[b].0@ by {
                        if a < before.len() {
                            assert(before[a] == entries@[a]);
                        }
                        if b < before.len() {
                            assert(before[b] == entries@[b]);
                        }
                    }
                }
            },
        }
        self.entries = entries;
        assert(self@ =~= old(self)@.insert(name@, level));
    }

    /// The entries of the map: each name once, with its level.
    pub fn entries(&self) -> (e: &Vec<(String, i32)>)
        ensures
            forall|i: int| 0 <= i < e@.len() ==>
                self@.dom().contains(#[trigger] e@[i].0@) && self@[e@[i].0@] == e@[i].1,
            forall|name: Seq<char>| #[trigger] self@.dom().contains(name) ==>
                exists|i: int| 0 <= i < e@.len() && #[trigger] e@[i].0@ == name,
    {
        proof {
            use_type_invariant(self);
            assert forall|i: int| 0 <= i < self.entries@.len() implies
                self@.dom().contains(#[trigger] self.entries@[i].0@) && self@[self.entries@[i].0@] == self.entries@[i].1 by {
                lemma_lookup_entry(self.entries@, i);
            }
            assert forall|name: Seq<char>| #[trigger] self@.dom().contains(name) implies
                exists|i: int| 0 <= i < self.entries@.len() && #[trigger] self.entries@[i].0@ == name by {
                let i = lemma_lookup_found(self.entries@, name);
            }
        }
        &self.entries
    }
}

/// What a read gives back after a write: the level just recorded for the name written, and for
/// every other name what it had before.
pub proof fn lemma_read_after_insert(levels: Map<Seq<char>, i32>, name: Seq<char>, level: i32, other: Seq<char>)
    ensures
        levels.insert(name, level).dom().contains(name),
        levels.insert(name, level)[name] == level,
        other != name ==> (levels.insert(name, level).dom().contains(other) == levels.dom().contains(other)),
        other != name && levels.dom().contains(other) ==> levels.insert(name, level)[other] == levels[other],
{
}

} // verus!
