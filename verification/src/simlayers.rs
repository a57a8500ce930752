//! The table of simlayers: a map from layer name to layer, kept as a list
//! in which no name occurs twice.

use crate::config::{Simlayer, SimlayerView};
use vstd::prelude::*;

verus! {

/// A table from layer name to simlayer. Its mathematical counterpart is the
/// map from each name to the counterpart of its layer.
#[derive(Debug)]
pub struct Simlayers {
    entries: Vec<(String, Simlayer)>,
}

/// No two of `entries` have the same name.
pub open spec fn names_distinct(entries: Seq<(String, Simlayer)>) -> bool {
    forall|i: int, j: int| 0 <= i < j < entries.len() ==> entries[i].0@ != entries[j].0@
}

/// Some entry of `entries` has the name `name`.
pub open spec fn has_name(entries: Seq<(String, Simlayer)>, name: Seq<char>) -> bool {
    exists|i: int| 0 <= i < entries.len() && #[trigger] entries[i].0@ == name
}

/// The index of an entry of `entries` with the name `name`.
pub open spec fn index_of(entries: Seq<(String, Simlayer)>, name: Seq<char>) -> int {
    choose|i: int| 0 <= i < entries.len() && #[trigger] entries[i].0@ == name
}

/// The map that a list of entries with distinct names stands for.
pub open spec fn map_of(entries: Seq<(String, Simlayer)>) -> Map<Seq<char>, SimlayerView> {
    Map::new(
        |name: Seq<char>| has_name(entries, name),
        |name: Seq<char>| entries[index_of(entries, name)].1.deep_view(),
    )
}

/// In a list with distinct names, each entry is what the map holds under
/// the entry's name.
pub proof fn lemma_map_of_entry(entries: Seq<(String, Simlayer)>, i: int)
    requires
        names_distinct(entries),
        0 <= i < entries.len(),
    ensures
        map_of(entries).contains_key(entries[i].0@),
        map_of(entries)[entries[i].0@] == entries[i].1.deep_view(),
        index_of(entries, entries[i].0@) == i,
{
    let j = index_of(entries, entries[i].0@);
    assert(0 <= j < entries.len() && entries[j].0@ == entries[i].0@);
    if j < i {
        assert(entries[j].0@ != entries[i].0@);
    } else if i < j {
        assert(entries[i].0@ != entries[j].0@);
    }
}

impl View for Simlayers {
    type V = Map<Seq<char>, SimlayerView>;

    closed spec fn view(&self) -> Map<Seq<char>, SimlayerView> {
        map_of(self.entries@)
    }
}

impl DeepView for Simlayers {
    type V = Map<Seq<char>, SimlayerView>;

    open spec fn deep_view(&self) -> Map<Seq<char>, SimlayerView> {
        self@
    }
}

impl Clone for Simlayers {
    fn clone(&self) -> (r: Simlayers)
        ensures
            r@ == self@,
    {
        proof {
            use_type_invariant(self);
        }
        let mut entries: Vec<(String, Simlayer)> = Vec::new();
        let mut i: usize = 0;
        while i < self.entries.len()
            invariant
                i <= self.entries.len(),
                entries.len() == i,
                forall|j: int|
                    0 <= j < i ==> entries[j].0@ == self.entries[j].0@ && entries[j].1.deep_view()
                        == self.entries[j].1.deep_view(),
            decreases self.entries.len() - i,
        {
            let (name, layer) = &self.entries[i];
            entries.push(
                (name.clone(), Simlayer { key: layer.key.clone(), threshold: layer.threshold }),
            );
            i += 1;
        }
        proof {
            lemma_same_names_same_map(self.entries@, entries@);
        }
        Simlayers { entries }
    }
}

impl Simlayers {
    #[verifier::type_invariant]
    spec fn well_formed(self) -> bool {
        names_distinct(self.entries@)
    }

    /// The table without any layer.
    pub fn new() -> (r: Simlayers)
        ensures
            r@ == Map::<Seq<char>, SimlayerView>::empty(),
    {
        let r = Simlayers { entries: Vec::new() };
        assert(r@ =~= Map::<Seq<char>, SimlayerView>::empty());
        r
    }

    /// The layer of the name `name`, where the table has one.
    pub fn get(&self, name: &String) -> (r: Option<&Simlayer>)
        ensures
            match r {
                Some(layer) => self@.contains_key(name@) && self@[name@] == layer.deep_view(),
                None => !self@.contains_key(name@),
            },
    {
        proof {
            use_type_invariant(self);
        }
        let mut i: usize = 0;
        while i < self.entries.len()
            invariant
                i <= self.entries.len(),
                names_distinct(self.entries@),
                forall|j: int| 0 <= j < i ==> self.entries[j].0@ != name@,
            decreases self.entries.len() - i,
        {
            if self.entries[i].0 == *name {
                proof {
                    lemma_map_of_entry(self.entries@, i as int);
                }
                return Some(&self.entries[i].1);
            }
            i += 1;
        }
        None
    }

    /// Binds `name` to `layer`, in place of the layer that `name` was bound
    /// to, if any; that layer is returned.
    pub fn insert(&mut self, name: String, layer: Simlayer) -> (previous: Option<Simlayer>)
        ensures
            final(self)@ == old(self)@.insert(name@, layer.deep_view()),
            match previous {
                Some(p) => old(self)@.contains_key(name@) && old(self)@[name@] == p.deep_view(),
                None => !old(self)@.contains_key(name@),
            },
    {
        proof {
            use_type_invariant(&*self);
        }
        let ghost before = self.entries@;
        let mut entries: Vec<(String, Simlayer)> = Vec::new();
        core::mem::swap(&mut self.entries, &mut entries);
        let mut previous: Option<Simlayer> = None;
        let mut i: usize = 0;
        while i < entries.len() && entries[i].0 != name
            invariant
                i <= entries.len(),
                entries@ == before,
                names_distinct(before),
                forall|j: int| 0 <= j < i ==> before[j].0@ != name@,
            decreases entries.len() - i,
        {
            i += 1;
        }
        if i < entries.len() {
            let replaced = entries.remove(i);
            entries.insert(i, (name, layer));
            proof {
                lemma_map_of_entry(before, i as int);
                assert(entries@ =~= before.update(i as int, entries@[i as int]));
                lemma_rebind(before, i as int, entries@[i as int]);
            }
            previous = Some(replaced.1);
        } else {
            entries.push((name, layer));
            proof {
                lemma_bind_new(before, entries@[before.len() as int]);
                assert(entries@ =~= before.push(entries@[before.len() as int]));
            }
        }
        core::mem::swap(&mut self.entries, &mut entries);
        previous
    }

    /// The entries of the table, each name once, in no particular order.
    pub fn entries(&self) -> (r: &Vec<(String, Simlayer)>)
        ensures
            names_distinct(r@),
            self@ == map_of(r@),
    {
        proof {
            use_type_invariant(self);
        }
        &self.entries
    }
}

/// Lists that agree name by name and layer by layer stand for one map.
proof fn lemma_same_names_same_map(a: Seq<(String, Simlayer)>, b: Seq<(String, Simlayer)>)
    requires
        names_distinct(a),
        a.len() == b.len(),
        forall|j: int|
            0 <= j < a.len() ==> a[j].0@ == b[j].0@ && a[j].1.deep_view() == b[j].1.deep_view(),
    ensures
        names_distinct(b),
        map_of(a) == map_of(b),
{
    assert forall|i: int, j: int| 0 <= i < j < b.len() implies b[i].0@ != b[j].0@ by {
        assert(a[i].0@ != a[j].0@);
    }
    assert forall|name: Seq<char>| map_of(a).contains_key(name) <==> map_of(b).contains_key(
        name,
    ) by {
        if has_name(a, name) {
            assert(b[index_of(a, name)].0@ == name);
        }
        if has_name(b, name) {
            assert(a[index_of(b, name)].0@ == name);
        }
    }
    assert forall|name: Seq<char>| map_of(a).contains_key(name) implies map_of(a)[name] == map_of(
        b,
    )[name] by {
        let i = index_of(a, name);
        lemma_map_of_entry(a, i);
        lemma_map_of_entry(b, i);
    }
    assert(map_of(a) =~= map_of(b));
}

/// Putting an entry in the place of one with the same name binds the name
/// anew and leaves every other name as it was.
proof fn lemma_rebind(entries: Seq<(String, Simlayer)>, i: int, entry: (String, Simlayer))
    requires
        names_distinct(entries),
        0 <= i < entries.len(),
        entry.0@ == entries[i].0@,
    ensures
        names_distinct(entries.update(i, entry)),
        map_of(entries.update(i, entry)) == map_of(entries).insert(entry.0@, entry.1.deep_view()),
{
    let after = entries.update(i, entry);
    assert forall|a: int, b: int| 0 <= a < b < after.len() implies after[a].0@ != after[b].0@ by {
        assert(after[a].0@ == entries[a].0@ && after[b].0@ == entries[b].0@);
    }
    let want = map_of(entries).insert(entry.0@, entry.1.deep_view());
    assert forall|name: Seq<char>| map_of(after).contains_key(name) <==> want.contains_key(
        name,
    ) by {
        if has_name(after, name) {
            let a = index_of(after, name);
            assert(entries[a].0@ == name);
        }
        if has_name(entries, name) {
            let a = index_of(entries, name);
            assert(after[a].0@ == name);
        }
        if name == entry.0@ {
            assert(after[i].0@ == name);
        }
    }
    assert forall|name: Seq<char>| map_of(after).contains_key(name) implies map_of(after)[name]
        == want[name] by {
        let a = index_of(after, name);
        lemma_map_of_entry(after, a);
        lemma_map_of_entry(entries, a);
        assert(entries[a].0@ == name);
        if a != i {
            assert(after[a] == entries[a]);
        }
    }
    assert(map_of(after) =~= want);
}

/// Adding an entry with a name that no entry has binds the name and leaves
/// every other name as it was.
proof fn lemma_bind_new(entries: Seq<(String, Simlayer)>, entry: (String, Simlayer))
    requires
        names_distinct(entries),
        forall|j: int| 0 <= j < entries.len() ==> entries[j].0@ != entry.0@,
    ensures
        names_distinct(entries.push(entry)),
        map_of(entries.push(entry)) == map_of(entries).insert(entry.0@, entry.1.deep_view()),
        !map_of(entries).contains_key(entry.0@),
{
    let after = entries.push(entry);
    let last = entries.len() as int;
    assert forall|a: int, b: int| 0 <= a < b < after.len() implies after[a].0@ != after[b].0@ by {
        if b < last {
            assert(after[a] == entries[a] && after[b] == entries[b]);
        } else {
            assert(after[a] == entries[a]);
        }
    }
    let want = map_of(entries).insert(entry.0@, entry.1.deep_view());
    assert forall|name: Seq<char>| map_of(after).contains_key(name) <==> want.contains_key(
        name,
    ) by {
        if has_name(after, name) {
            let a = index_of(after, name);
            if a < last {
                assert(entries[a].0@ == name);
            }
        }
        if has_name(entries, name) {
            let a = index_of(entries, name);
            assert(after[a].0@ == name);
        }
        if name == entry.0@ {
            assert(after[last].0@ == name);
        }
    }
    assert forall|name: Seq<char>| map_of(after).contains_key(name) implies map_of(after)[name]
        == want[name] by {
        let a = index_of(after, name);
        lemma_map_of_entry(after, a);
        if a < last {
            assert(after[a] == entries[a]);
            lemma_map_of_entry(entries, a);
        }
    }
    assert(map_of(after) =~= want);
}

} // verus!
