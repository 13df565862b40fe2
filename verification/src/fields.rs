//! A small map from field names to field values, kept in insertion order.

use vstd::prelude::*;
use vstd::string::*;

verus! {

/// The named values of one record. No name occurs twice: see `wf`.
#[derive(Clone, Debug)]
pub struct FieldMap {
    pub(crate) entries: Vec<(String, String)>,
}

/// No two entries have the same name.
pub open spec fn distinct_names(entries: Seq<(String, String)>) -> bool {
    forall|i: int, j: int|
        0 <= i < j < entries.len() ==> (#[trigger] entries[i]).0@ != (#[trigger] entries[j]).0@
}

/// Some entry has the name `name`.
pub open spec fn has_name(entries: Seq<(String, String)>, name: Seq<char>) -> bool {
    exists|i: int| 0 <= i < entries.len() && (#[trigger] entries[i]).0@ == name
}

/// The place of an entry with the name `name`.
pub open spec fn place_of(entries: Seq<(String, String)>, name: Seq<char>) -> int {
    choose|i: int| 0 <= i < entries.len() && (#[trigger] entries[i]).0@ == name
}

/// The map that a list of entries stands for.
pub open spec fn entries_map(entries: Seq<(String, String)>) -> Map<Seq<char>, Seq<char>> {
    Map::new(
        |name: Seq<char>| has_name(entries, name),
        |name: Seq<char>| entries[place_of(entries, name)].1@,
    )
}

/// With distinct names, the entry at `i` is the one that its name leads to.
pub proof fn lemma_place_of(entries: Seq<(String, String)>, i: int)
    requires
        distinct_names(entries),
        0 <= i < entries.len(),
    ensures
        has_name(entries, entries[i].0@),
        place_of(entries, entries[i].0@) == i,
        entries_map(entries)[entries[i].0@] == entries[i].1@,
{
    let name = entries[i].0@;
    let j = place_of(entries, name);
    assert(0 <= j < entries.len() && entries[j].0@ == name);
    if j < i {
        assert(entries[j].0@ != entries[i].0@);
    } else if i < j {
        assert(entries[i].0@ != entries[j].0@);
    }
}

/// Adding an entry with a new name adds it to the map.
pub proof fn lemma_map_push(entries: Seq<(String, String)>, entry: (String, String))
    requires
        distinct_names(entries),
        !has_name(entries, entry.0@),
    ensures
        distinct_names(entries.push(entry)),
        entries_map(entries.push(entry)) == entries_map(entries).insert(entry.0@, entry.1@),
{
    let after = entries.push(entry);
    assert forall|i: int, j: int| 0 <= i < j < after.len() implies (#[trigger] after[i]).0@ != (
    #[trigger] after[j]).0@ by {
        if j == entries.len() {
            assert(after[i] == entries[i]);
        } else {
            assert(after[i] == entries[i] && after[j] == entries[j]);
        }
    }
    let wanted = entries_map(entries).insert(entry.0@, entry.1@);
    assert forall|name: Seq<char>| has_name(after, name) <==> wanted.dom().contains(name) by {
        if has_name(after, name) {
            let i = place_of(after, name);
            if i < entries.len() {
                assert(entries[i] == after[i]);
            }
        }
        if has_name(entries, name) {
            let i = place_of(entries, name);
            assert(after[i] == entries[i]);
        }
        if name == entry.0@ {
            assert(after[entries.len() as int] == entry);
        }
    }
    assert forall|name: Seq<char>| has_name(after, name) implies entries_map(after)[name]
        == wanted[name] by {
        let i = place_of(after, name);
        lemma_place_of(after, i);
        if i < entries.len() {
            assert(after[i] == entries[i]);
            lemma_place_of(entries, i);
        }
    }
    assert(entries_map(after) =~= wanted);
}

/// Replacing the value of an entry replaces it in the map.
pub proof fn lemma_map_update(entries: Seq<(String, String)>, i: int, entry: (String, String))
    requires
        distinct_names(entries),
        0 <= i < entries.len(),
        entries[i].0@ == entry.0@,
    ensures
        distinct_names(entries.update(i, entry)),
        entries_map(entries.update(i, entry)) == entries_map(entries).insert(entry.0@, entry.1@),
{
    let after = entries.update(i, entry);
    assert forall|a: int, b: int| 0 <= a < b < after.len() implies (#[trigger] after[a]).0@ != (
    #[trigger] after[b]).0@ by {
        assert(after[a].0@ == entries[a].0@);
        assert(after[b].0@ == entries[b].0@);
    }
    let wanted = entries_map(entries).insert(entry.0@, entry.1@);
    assert forall|name: Seq<char>| has_name(after, name) <==> wanted.dom().contains(name) by {
        if has_name(after, name) {
            let k = place_of(after, name);
            assert(after[k].0@ == entries[k].0@);
        }
        if has_name(entries, name) {
            let k = place_of(entries, name);
            assert(after[k].0@ == entries[k].0@);
        }
        if name == entry.0@ {
            assert(after[i].0@ == name);
        }
    }
    assert forall|name: Seq<char>| has_name(after, name) implies entries_map(after)[name]
        == wanted[name] by {
        let k = place_of(after, name);
        lemma_place_of(after, k);
        if k != i {
            assert(after[k] == entries[k]);
            lemma_place_of(entries, k);
            lemma_place_of(entries, i);
        }
    }
    assert(entries_map(after) =~= wanted);
}

/// Taking an entry out takes its name out of the map.
pub proof fn lemma_map_remove(entries: Seq<(String, String)>, i: int)
    requires
        distinct_names(entries),
        0 <= i < entries.len(),
    ensures
        distinct_names(entries.remove(i)),
        entries_map(entries.remove(i)) == entries_map(entries).remove(entries[i].0@),
{
    let after = entries.remove(i);
    assert forall|a: int, b: int| 0 <= a < b < after.len() implies (#[trigger] after[a]).0@ != (
    #[trigger] after[b]).0@ by {
        let a0 = if a < i { a } else { a + 1 };
        let b0 = if b < i { b } else { b + 1 };
        assert(after[a] == entries[a0] && after[b] == entries[b0]);
    }
    let gone = entries[i].0@;
    let wanted = entries_map(entries).remove(gone);
    assert forall|name: Seq<char>| has_name(after, name) <==> wanted.dom().contains(name) by {
        if has_name(after, name) {
            let k = place_of(after, name);
            let k0 = if k < i { k } else { k + 1 };
            assert(after[k] == entries[k0]);
            if name == gone {
                lemma_place_of(entries, k0);
                lemma_place_of(entries, i);
            }
        }
        if has_name(entries, name) && name != gone {
            let k = place_of(entries, name);
            let k1 = if k < i { k } else { k - 1 };
            assert(after[k1] == entries[k]);
        }
    }
    assert forall|name: Seq<char>| has_name(after, name) implies entries_map(after)[name]
        == wanted[name] by {
        let k = place_of(after, name);
        lemma_place_of(after, k);
        let k0 = if k < i { k } else { k + 1 };
        assert(after[k] == entries[k0]);
        lemma_place_of(entries, k0);
    }
    assert(entries_map(after) =~= wanted);
}

impl View for FieldMap {
    type V = Map<Seq<char>, Seq<char>>;

    closed spec fn view(&self) -> Map<Seq<char>, Seq<char>> {
        entries_map(self.entries@)
    }
}

impl FieldMap {
    /// The invariant of the type: no name occurs twice.
    pub closed spec fn wf(&self) -> bool {
        distinct_names(self.entries@)
    }

    /// A map without fields.
    pub fn new() -> (map: FieldMap)
        ensures
            map.wf(),
            map@ == Map::<Seq<char>, Seq<char>>::empty(),
    {
        let map = FieldMap { entries: Vec::new() };
        assert(map@ =~= Map::<Seq<char>, Seq<char>>::empty());
        map
    }

    /// The place of the entry named `name`, if there is one.
    fn find(&self, name: &str) -> (place: Option<usize>)
        ensures
            match place {
                Some(i) => i < self.entries@.len() && self.entries@[i as int].0@ == name@,
                None => !has_name(self.entries@, name@),
            },
    {
        let mut i: usize = 0;
        while i < self.entries.len()
            invariant
                i <= self.entries@.len(),
                forall|k: int| 0 <= k < i ==> (#[trigger] self.entries@[k]).0@ != name@,
            decreases self.entries@.len() - i,
        {
            if *self.entries[i].0.as_str() == *name {
                return Some(i);
            }
            i += 1;
        }
        None
    }

    /// Whether the map has a field named `name`.
    pub fn contains_key(&self, name: &str) -> (found: bool)
        ensures
            found == self@.contains_key(name@),
    {
        self.find(name).is_some()
    }

    /// The value of the field named `name`, if the map has one.
    pub fn get(&self, name: &str) -> (value: Option<&String>)
        requires
            self.wf(),
        ensures
            match value {
                Some(v) => self@.contains_key(name@) && v@ == self@[name@],
                None => !self@.contains_key(name@),
            },
    {
        match self.find(name) {
            Some(i) => {
                proof {
                    lemma_place_of(self.entries@, i as int);
                }
                Some(&self.entries[i].1)
            },
            None => None,
        }
    }

    /// Sets the field named `name` to `value`, whether or not the map had one.
    pub fn insert(&mut self, name: String, value: String)
        requires
            old(self).wf(),
        ensures
            final(self).wf(),
            final(self)@ == old(self)@.insert(name@, value@),
    {
        match self.find(name.as_str()) {
            Some(i) => {
                proof {
                    lemma_map_update(self.entries@, i as int, (name, value));
                }
                self.entries.set(i, (name, value));
            },
            None => {
                proof {
                    lemma_map_push(self.entries@, (name, value));
                }
                self.entries.push((name, value));
            },
        }
    }

    /// Takes the field named `name` out of the map and returns its value.
    pub fn remove(&mut self, name: &str) -> (value: Option<String>)
        requires
            old(self).wf(),
        ensures
            final(self).wf(),
            match value {
                Some(v) => old(self)@.contains_key(name@) && v@ == old(self)@[name@],
                None => !old(self)@.contains_key(name@),
            },
            final(self)@ == old(self)@.remove(name@),
    {
        match self.find(name) {
            Some(i) => {
                proof {
                    lemma_place_of(self.entries@, i as int);
                    lemma_map_remove(self.entries@, i as int);
                }
                let entry = self.entries.remove(i);
                Some(entry.1)
            },
            None => {
                assert(old(self)@.remove(name@) =~= old(self)@);
                None
            },
        }
    }
}

} // verus!
