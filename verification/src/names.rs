//! Collections keyed by name, which remember the order in which names were first added.
use vstd::prelude::*;

use crate::text::same_text;

verus! {

/// A map from names to values. No name occurs twice.
#[derive(Debug)]
pub struct NameMap<V> {
    entries: Vec<(String, V)>,
}

/// A set of names. No name occurs twice.
#[derive(Debug)]
pub struct NameSet {
    names: Vec<String>,
}

spec fn names_of<V>(entries: Seq<(String, V)>) -> Seq<Seq<char>> {
    entries.map_values(|e: (String, V)| e.0@)
}

spec fn texts_of(names: Seq<String>) -> Seq<Seq<char>> {
    names.map_values(|n: String| n@)
}

spec fn map_of<V>(entries: Seq<(String, V)>) -> Map<Seq<char>, V> {
    Map::new(
        |name: Seq<char>| names_of(entries).contains(name),
        |name: Seq<char>| entries[names_of(entries).index_of(name)].1,
    )
}

impl<V> NameMap<V> {
    #[verifier::type_invariant]
    spec fn distinct(self) -> bool {
        names_of(self.entries@).no_duplicates()
    }

    /// The names, in the order in which they were first added.
    pub closed spec fn order(self) -> Seq<Seq<char>> {
        names_of(self.entries@)
    }
}

impl<V> View for NameMap<V> {
    type V = Map<Seq<char>, V>;

    closed spec fn view(&self) -> Map<Seq<char>, V> {
        map_of(self.entries@)
    }
}

impl NameSet {
    #[verifier::type_invariant]
    spec fn distinct(self) -> bool {
        texts_of(self.names@).no_duplicates()
    }

    /// The names, in the order in which they were first added.
    pub closed spec fn order(self) -> Seq<Seq<char>> {
        texts_of(self.names@)
    }
}

impl View for NameSet {
    type V = Set<Seq<char>>;

    open spec fn view(&self) -> Set<Seq<char>> {
        self.order().to_set()
    }
}

/// The value at a position belongs to the name at that position.
proof fn lemma_value_at<V>(entries: Seq<(String, V)>, i: int)
    requires
        names_of(entries).no_duplicates(),
        0 <= i < entries.len(),
    ensures
        map_of(entries).contains_key(entries[i].0@),
        map_of(entries)[entries[i].0@] == entries[i].1,
{
    let names = names_of(entries);
    assert(names[i] == entries[i].0@);
    assert(names.contains(entries[i].0@));
    assert(names[names.index_of(entries[i].0@)] == names[i]);
}

/// Giving a value to a name that is there keeps the names and changes that value alone.
proof fn lemma_replace<V>(old_entries: Seq<(String, V)>, i: int, entry: (String, V))
    requires
        names_of(old_entries).no_duplicates(),
        0 <= i < old_entries.len(),
        entry.0@ == old_entries[i].0@,
    ensures
        names_of(old_entries.update(i, entry)) == names_of(old_entries),
        map_of(old_entries.update(i, entry)) == map_of(old_entries).insert(entry.0@, entry.1),
{
    let new_entries = old_entries.update(i, entry);
    assert(names_of(new_entries) =~= names_of(old_entries));
    let names = names_of(old_entries);
    let a = map_of(new_entries);
    let b = map_of(old_entries).insert(entry.0@, entry.1);
    lemma_value_at(new_entries, i);
    assert forall|n: Seq<char>| a.contains_key(n) implies b.contains_key(n) && a[n] == b[n] by {
        let k = names.index_of(n);
        lemma_value_at(new_entries, k);
        lemma_value_at(old_entries, k);
        assert(names[k] == n);
        if k != i {
            assert(names[k] != names[i]);
        }
    }
    assert(a =~= b);
}

/// Adding a new name puts it last and keeps every other value.
proof fn lemma_add<V>(old_entries: Seq<(String, V)>, entry: (String, V))
    requires
        names_of(old_entries).no_duplicates(),
        !names_of(old_entries).contains(entry.0@),
    ensures
        names_of(old_entries.push(entry)) == names_of(old_entries).push(entry.0@),
        names_of(old_entries.push(entry)).no_duplicates(),
        map_of(old_entries.push(entry)) == map_of(old_entries).insert(entry.0@, entry.1),
{
    let new_entries = old_entries.push(entry);
    let old_names = names_of(old_entries);
    let new_names = names_of(new_entries);
    assert(new_names =~= old_names.push(entry.0@));
    assert(new_names.no_duplicates());
    let a = map_of(new_entries);
    let b = map_of(old_entries).insert(entry.0@, entry.1);
    lemma_value_at(new_entries, old_entries.len() as int);
    assert forall|n: Seq<char>| a.contains_key(n) implies b.contains_key(n) && a[n] == b[n] by {
        let k = new_names.index_of(n);
        lemma_value_at(new_entries, k);
        assert(new_names[k] == n);
        if k < old_entries.len() {
            lemma_value_at(old_entries, k);
            assert(old_names[k] == n);
        }
    }
    assert forall|n: Seq<char>| b.contains_key(n) implies a.contains_key(n) by {
        if n == entry.0@ {
            assert(new_names[old_entries.len() as int] == n);
        } else {
            let k = old_names.index_of(n);
            assert(new_names[k] == n);
        }
    }
    assert(a =~= b);
}

impl<V> NameMap<V> {
    /// The names in the order are those that have a value.
    pub proof fn lemma_order(self)
        ensures
            forall|n: Seq<char>| #[trigger] self@.contains_key(n) <==> self.order().contains(n),
    {
    }

    /// An empty map.
    pub fn new() -> (r: Self)
        ensures
            r@ == Map::<Seq<char>, V>::empty(),
            r.order() == Seq::<Seq<char>>::empty(),
    {
        let r = NameMap { entries: Vec::new() };
        assert(r@ =~= Map::<Seq<char>, V>::empty());
        assert(r.order() =~= Seq::<Seq<char>>::empty());
        r
    }

    /// The position of `name`, or the number of names where it is not there.
    fn slot(&self, name: &str) -> (r: usize)
        ensures
            r <= self.entries@.len(),
            r < self.entries@.len() ==> self.entries@[r as int].0@ == name@,
            r == self.entries@.len() ==> !names_of(self.entries@).contains(name@),
    {
        let mut i: usize = 0;
        while i < self.entries.len()
            invariant
                i <= self.entries.len(),
                forall|j: int| 0 <= j < i ==> self.entries@[j].0@ != name@,
            decreases self.entries.len() - i,
        {
            if same_text(self.entries[i].0.as_str(), name) {
                return i;
            }
            i += 1;
        }
        i
    }

    /// The map with `value` for `name`, in place of a value that `name` may have had.
    pub fn with(self, name: &str, value: V) -> (r: Self)
        ensures
            r@ == self@.insert(name@, value),
            r.order() == (if self@.contains_key(name@) {
                self.order()
            } else {
                self.order().push(name@)
            }),
    {
        proof {
            use_type_invariant(&self);
        }
        let i = self.slot(name);
        let mut entries = self.entries;
        let ghost before = entries@;
        let entry = (name.to_string(), value);
        if i < entries.len() {
            proof {
                lemma_value_at(before, i as int);
                lemma_replace(before, i as int, entry);
            }
            entries.set(i, entry);
        } else {
            proof {
                lemma_add(before, entry);
            }
            entries.push(entry);
        }
        NameMap { entries }
    }

    /// The value of `name`, where it has one.
    pub fn get(&self, name: &str) -> (r: Option<&V>)
        ensures
            r == (if self@.contains_key(name@) {
                Some(&self@[name@])
            } else {
                None
            }),
    {
        proof {
            use_type_invariant(self);
        }
        let i = self.slot(name);
        if i < self.entries.len() {
            proof {
                lemma_value_at(self.entries@, i as int);
            }
            Some(&self.entries[i].1)
        } else {
            None
        }
    }

    /// The number of names, none of which occurs twice.
    pub fn len(&self) -> (r: usize)
        ensures
            r == self.order().len(),
            self.order().no_duplicates(),
    {
        proof {
            use_type_invariant(self);
        }
        self.entries.len()
    }

    /// The name at position `i` of the order.
    pub fn name_at(&self, i: usize) -> (r: &str)
        requires
            i < self.order().len(),
        ensures
            r@ == self.order()[i as int],
            self@.contains_key(r@),
            self.order().no_duplicates(),
    {
        proof {
            use_type_invariant(self);
            lemma_value_at(self.entries@, i as int);
        }
        self.entries[i].0.as_str()
    }

    /// The value of the name at position `i` of the order.
    pub fn value_at(&self, i: usize) -> (r: &V)
        requires
            i < self.order().len(),
        ensures
            self@.contains_key(self.order()[i as int]),
            *r == self@[self.order()[i as int]],
    {
        proof {
            use_type_invariant(self);
            lemma_value_at(self.entries@, i as int);
        }
        &self.entries[i].1
    }
}

impl<V: Clone> Clone for NameMap<V> {
    fn clone(&self) -> (r: Self)
        ensures
            r.order() == self.order(),
            r@.dom() == self@.dom(),
            forall|n: Seq<char>| #[trigger]
                r@.contains_key(n) ==> cloned::<V>(self@[n], r@[n]),
    {
        proof {
            use_type_invariant(self);
        }
        let mut entries: Vec<(String, V)> = Vec::new();
        let mut i: usize = 0;
        while i < self.entries.len()
            invariant
                i <= self.entries.len(),
                entries.len() == i,
                forall|j: int| 0 <= j < i ==> entries@[j].0@ == (#[trigger] self.entries@[j]).0@,
                forall|j: int|
                    0 <= j < i ==> cloned::<V>((#[trigger] self.entries@[j]).1, entries@[j].1),
            decreases self.entries.len() - i,
        {
            let entry = &self.entries[i];
            entries.push((entry.0.clone(), entry.1.clone()));
            i += 1;
        }
        proof {
            let names = names_of(self.entries@);
            assert(names_of(entries@) =~= names);
            assert(map_of(entries@).dom() =~= map_of(self.entries@).dom());
            assert forall|n: Seq<char>| #[trigger] map_of(entries@).contains_key(n) implies cloned::<
                V,
            >(map_of(self.entries@)[n], map_of(entries@)[n]) by {
                let k = names.index_of(n);
                assert(names[k] == n);
                lemma_value_at(self.entries@, k);
                lemma_value_at(entries@, k);
            }
        }
        NameMap { entries }
    }
}

impl Clone for NameSet {
    fn clone(&self) -> (r: Self)
        ensures
            r.order() == self.order(),
    {
        proof {
            use_type_invariant(self);
        }
        let mut names: Vec<String> = Vec::new();
        let mut i: usize = 0;
        while i < self.names.len()
            invariant
                i <= self.names.len(),
                names.len() == i,
                forall|j: int| 0 <= j < i ==> names@[j]@ == (#[trigger] self.names@[j])@,
            decreases self.names.len() - i,
        {
            names.push(self.names[i].clone());
            i += 1;
        }
        assert(texts_of(names@) =~= texts_of(self.names@));
        NameSet { names }
    }
}

impl NameSet {
    /// An empty set.
    pub fn new() -> (r: Self)
        ensures
            r@ == Set::<Seq<char>>::empty(),
            r.order() == Seq::<Seq<char>>::empty(),
    {
        let r = NameSet { names: Vec::new() };
        assert(r.order() =~= Seq::<Seq<char>>::empty());
        assert(r@ =~= Set::<Seq<char>>::empty());
        r
    }

    /// Whether `name` is in the set.
    pub fn contains(&self, name: &str) -> (r: bool)
        ensures
            r == self@.contains(name@),
    {
        let mut i: usize = 0;
        while i < self.names.len()
            invariant
                i <= self.names.len(),
                forall|j: int| 0 <= j < i ==> self.names@[j]@ != name@,
            decreases self.names.len() - i,
        {
            if same_text(self.names[i].as_str(), name) {
                assert(self.order()[i as int] == name@);
                return true;
            }
            i += 1;
        }
        assert forall|j: int| 0 <= j < self.order().len() implies self.order()[j] != name@ by {
            assert(self.order()[j] == self.names@[j]@);
        }
        false
    }

    /// The set with `name` in it.
    pub fn with(self, name: &str) -> (r: Self)
        ensures
            r@ == self@.insert(name@),
            r.order() == (if self@.contains(name@) {
                self.order()
            } else {
                self.order().push(name@)
            }),
    {
        proof {
            use_type_invariant(&self);
        }
        if self.contains(name) {
            assert(self@.insert(name@) =~= self@);
            return self;
        }
        let mut names = self.names;
        let ghost before = texts_of(names@);
        names.push(name.to_string());
        proof {
            let after = texts_of(names@);
            assert(after =~= before.push(name@));
            assert(!before.contains(name@));
            assert(after.no_duplicates());
            assert forall|n: Seq<char>| after.contains(n) <==> (before.contains(n) || n == name@) by {
                if before.contains(n) {
                    let k = before.index_of(n);
                    assert(after[k] == n);
                }
                assert(after[before.len() as int] == name@);
            }
            assert(after.to_set() =~= before.to_set().insert(name@));
        }
        NameSet { names }
    }

    /// The number of names, none of which occurs twice.
    pub fn len(&self) -> (r: usize)
        ensures
            r == self.order().len(),
            self.order().no_duplicates(),
    {
        proof {
            use_type_invariant(self);
        }
        self.names.len()
    }

    /// The name at position `i` of the order.
    pub fn name_at(&self, i: usize) -> (r: &str)
        requires
            i < self.order().len(),
        ensures
            r@ == self.order()[i as int],
            self@.contains(r@),
            self.order().no_duplicates(),
    {
        proof {
            use_type_invariant(self);
        }
        assert(self.order()[i as int] == self.names@[i as int]@);
        self.names[i].as_str()
    }
}

} // verus!
