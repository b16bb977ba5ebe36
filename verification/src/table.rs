//! A table of settings by name.

use vstd::prelude::*;

use crate::text::{same_text, texts};

verus! {

/// The names of a list of entries, in order.
pub open spec fn entry_names<V>(entries: Seq<(String, V)>) -> Seq<Seq<char>> {
    entries.map_values(|e: (String, V)| e.0@)
}

/// What a list of entries maps each name to: of two entries with one name, the later counts.
pub open spec fn entry_map<V>(entries: Seq<(String, V)>) -> Map<Seq<char>, V>
    decreases entries.len(),
{
    if entries.len() == 0 {
        Map::empty()
    } else {
        entry_map(entries.drop_last()).insert(entries.last().0@, entries.last().1)
    }
}

/// In a list without a repeated name, the map holds exactly the entries.
proof fn lemma_entry_map<V>(entries: Seq<(String, V)>)
    requires
        entry_names(entries).no_duplicates(),
    ensures
        forall|i: int|
            0 <= i < entries.len() ==> entry_map(entries).contains_key(
                (#[trigger] entries[i]).0@,
            ) && entry_map(entries)[entries[i].0@] == entries[i].1,
        forall|name: Seq<char>| #[trigger]
            entry_map(entries).contains_key(name) <==> entry_names(entries).contains(name),
    decreases entries.len(),
{
    let names = entry_names(entries);
    if entries.len() > 0 {
        let init = entries.drop_last();
        let last = entries.last();
        assert(entry_names(init) =~= names.drop_last());
        lemma_entry_map(init);
        assert(names.last() == last.0@);
        assert forall|i: int| 0 <= i < entries.len() implies entry_map(entries).contains_key(
            (#[trigger] entries[i]).0@,
        ) && entry_map(entries)[entries[i].0@] == entries[i].1 by {
            assert(names[i] == entries[i].0@);
            if i < init.len() {
                assert(init[i] == entries[i]);
                assert(names[i] != names[names.len() - 1]);
            }
        }
        assert forall|name: Seq<char>| #[trigger]
            entry_map(entries).contains_key(name) <==> names.contains(name) by {
            if names.contains(name) {
                let i: int = choose|i: int| 0 <= i < names.len() && names[i] == name;
                if i < init.len() {
                    assert(entry_names(init)[i] == name);
                    assert(entry_names(init).contains(name));
                }
            }
            if entry_map(entries).contains_key(name) {
                if name == last.0@ {
                    assert(names[names.len() - 1] == name);
                } else {
                    assert(entry_map(init).contains_key(name));
                    let i: int = choose|i: int|
                        0 <= i < entry_names(init).len() && entry_names(init)[i] == name;
                    assert(names[i] == name);
                }
            }
        }
    } else {
        assert(names =~= Seq::empty());
    }
}

/// Settings by name. A name stands for one entry, and the names keep the order in which
/// they came.
pub struct NameTable<V> {
    entries: Vec<(String, V)>,
}

impl<V> View for NameTable<V> {
    type V = Map<Seq<char>, V>;

    closed spec fn view(&self) -> Map<Seq<char>, V> {
        entry_map(self.entries@)
    }
}

impl<V> NameTable<V> {
    #[verifier::type_invariant]
    spec fn names_distinct(&self) -> bool {
        entry_names(self.entries@).no_duplicates()
    }

    /// The names, in the order in which they came.
    pub closed spec fn spec_names(&self) -> Seq<Seq<char>> {
        entry_names(self.entries@)
    }

    /// A table without entries.
    pub fn new() -> (r: Self)
        ensures
            r@ == Map::<Seq<char>, V>::empty(),
            r.spec_names() == Seq::<Seq<char>>::empty(),
    {
        let entries: Vec<(String, V)> = Vec::new();
        assert(entry_names(entries@) =~= Seq::<Seq<char>>::empty());
        NameTable { entries }
    }

    /// Where the entry for `name` stands.
    fn position(&self, name: &str) -> (r: Option<usize>)
        ensures
            match r {
                Some(i) => i < self.entries@.len() && self.entries@[i as int].0@ == name@,
                None => !self.spec_names().contains(name@),
            },
    {
        let mut i: usize = 0;
        while i < self.entries.len()
            invariant
                i <= self.entries.len(),
                forall|j: int| 0 <= j < i ==> #[trigger] self.spec_names()[j] != name@,
            decreases self.entries.len() - i,
        {
            assert(self.spec_names()[i as int] == self.entries@[i as int].0@);
            if same_text(self.entries[i].0.as_str(), name) {
                return Some(i);
            }
            i = i + 1;
        }
        None
    }

    /// The entry for `name`, if there is one.
    pub fn get(&self, name: &str) -> (r: Option<&V>)
        ensures
            match r {
                Some(v) => self@.contains_key(name@) && *v == self@[name@],
                None => !self@.contains_key(name@),
            },
    {
        proof {
            use_type_invariant(self);
            lemma_entry_map(self.entries@);
        }
        match self.position(name) {
            Some(i) => Some(&self.entries[i].1),
            None => None,
        }
    }

    /// Sets the entry for `name`. A name that is there already keeps its place.
    pub fn insert(&mut self, name: String, value: V)
        ensures
            final(self)@ == old(self)@.insert(name@, value),
            final(self).spec_names() == (if old(self)@.contains_key(name@) {
                old(self).spec_names()
            } else {
                old(self).spec_names().push(name@)
            }),
    {
        proof {
            use_type_invariant(&*self);
            lemma_entry_map(self.entries@);
        }
        let at: Option<usize> = self.position(name.as_str());
        let ghost before = self.entries@;
        let mut entries: Vec<(String, V)> = Vec::new();
        std::mem::swap(&mut entries, &mut self.entries);
        match at {
            Some(i) => {
                let ghost entry = (name, value);
                entries.set(i, (name, value));
                proof {
                    assert(entries@ == before.update(i as int, entry));
                    assert(entry_names(entries@) =~= entry_names(before));
                    assert(entry_names(before)[i as int] == name@);
                    lemma_entry_map(entries@);
                    assert forall|k: Seq<char>|
                        entry_map(before).insert(name@, value).contains_key(k)
                        <==> #[trigger] entry_map(entries@).contains_key(k) by {}
                    assert forall|k: Seq<char>| #[trigger]
                        entry_map(entries@).contains_key(k) implies entry_map(entries@)[k]
                        == entry_map(before).insert(name@, value)[k] by {
                        let j: int = choose|j: int|
                            0 <= j < entry_names(before).len() && entry_names(before)[j] == k;
                        assert(before[j].0@ == k);
                        assert(entries@[j].0@ == k);
                    }
                    assert(entry_map(entries@) =~= entry_map(before).insert(name@, value));
                }
            },
            None => {
                let ghost entry = (name, value);
                entries.push((name, value));
                proof {
                    assert(entries@.drop_last() =~= before);
                    assert(entries@.last() == entry);
                    assert(entry_names(entries@) =~= entry_names(before).push(name@));
                }
            },
        }
        self.entries = entries;
    }

    /// The names, in the order in which they came: each name that has an entry, once.
    pub fn names(&self) -> (r: Vec<String>)
        ensures
            texts(r@) == self.spec_names(),
            texts(r@).no_duplicates(),
            forall|name: Seq<char>| #[trigger]
                texts(r@).contains(name) <==> self@.contains_key(name),
    {
        proof {
            use_type_invariant(self);
            lemma_entry_map(self.entries@);
        }
        let mut r: Vec<String> = Vec::new();
        let mut i: usize = 0;
        while i < self.entries.len()
            invariant
                i <= self.entries.len(),
                r@.len() == i,
                forall|j: int| 0 <= j < i ==> #[trigger] r@[j]@ == self.entries@[j].0@,
            decreases self.entries.len() - i,
        {
            r.push(self.entries[i].0.clone());
            i = i + 1;
        }
        assert(texts(r@) =~= self.spec_names());
        r
    }
}

} // verus!
