//! A small association table from names to values.
//!
//! The table keeps its entries in insertion order and never holds a name
//! twice, so it reads as a finite map from names to values.

use vstd::prelude::*;

verus! {

/// One entry of a [`NameTable`].
struct Entry<V> {
    name: String,
    value: V,
}

/// The name of the entry at position `i`, as a sequence of characters.
spec fn name_at<V>(s: Seq<Entry<V>>, i: int) -> Seq<char> {
    s[i].name@
}

/// No two positions of `s` hold the same name.
spec fn distinct_names<V>(s: Seq<Entry<V>>) -> bool {
    forall|i: int, j: int|
        0 <= i < s.len() && 0 <= j < s.len() && #[trigger] name_at(s, i) == #[trigger] name_at(s, j)
            ==> i == j
}

/// Some position of `s` holds the name `k`.
spec fn has_name<V>(s: Seq<Entry<V>>, k: Seq<char>) -> bool {
    exists|i: int| 0 <= i < s.len() && #[trigger] name_at(s, i) == k
}

/// A position of `s` that holds the name `k`, where there is one.
spec fn position_of<V>(s: Seq<Entry<V>>, k: Seq<char>) -> int {
    choose|i: int| 0 <= i < s.len() && #[trigger] name_at(s, i) == k
}

/// The finite map that the entries `s` stand for.
spec fn entries_map<V>(s: Seq<Entry<V>>) -> Map<Seq<char>, V> {
    Map::new(|k: Seq<char>| has_name(s, k), |k: Seq<char>| s[position_of(s, k)].value)
}

/// With distinct names, the entry at position `i` is the one the map holds
/// for its name.
proof fn lemma_entry_in_map<V>(s: Seq<Entry<V>>, i: int)
    requires
        distinct_names(s),
        0 <= i < s.len(),
    ensures
        entries_map(s).contains_key(s[i].name@),
        entries_map(s)[s[i].name@] == s[i].value,
{
    assert(name_at(s, i) == s[i].name@);
    assert(has_name(s, s[i].name@));
    let j = position_of(s, s[i].name@);
    assert(name_at(s, j) == name_at(s, i));
}

/// Appending an entry under a fresh name inserts it into the map.
proof fn lemma_push_inserts<V>(s: Seq<Entry<V>>, e: Entry<V>)
    requires
        distinct_names(s),
        !has_name(s, e.name@),
    ensures
        distinct_names(s.push(e)),
        entries_map(s.push(e)) =~= entries_map(s).insert(e.name@, e.value),
{
    let t = s.push(e);
    assert forall|i: int, j: int|
        0 <= i < t.len() && 0 <= j < t.len() && #[trigger] name_at(t, i) == #[trigger] name_at(
            t,
            j,
        ) implies i == j by {
        if i < s.len() {
            assert(name_at(s, i) == name_at(t, i));
        }
        if j < s.len() {
            assert(name_at(s, j) == name_at(t, j));
        }
    }
    assert forall|k: Seq<char>| has_name(t, k) <==> (has_name(s, k) || k == e.name@) by {
        if has_name(s, k) {
            let i = position_of(s, k);
            assert(name_at(t, i) == k);
        }
        if k == e.name@ {
            assert(name_at(t, s.len() as int) == k);
        }
        if has_name(t, k) {
            let i = position_of(t, k);
            if i < s.len() {
                assert(name_at(s, i) == k);
            }
        }
    }
    assert forall|k: Seq<char>| has_name(t, k) implies #[trigger] entries_map(t)[k] == entries_map(
        s,
    ).insert(e.name@, e.value)[k] by {
        let i = position_of(t, k);
        lemma_entry_in_map(t, i);
        if i < s.len() {
            assert(name_at(s, i) == k);
            lemma_entry_in_map(s, i);
        }
    }
}

/// Replacing the value at position `i` under the same name overwrites the
/// map at that name.
proof fn lemma_update_inserts<V>(s: Seq<Entry<V>>, i: int, e: Entry<V>)
    requires
        distinct_names(s),
        0 <= i < s.len(),
        e.name@ == s[i].name@,
    ensures
        distinct_names(s.update(i, e)),
        entries_map(s.update(i, e)) =~= entries_map(s).insert(e.name@, e.value),
{
    let t = s.update(i, e);
    assert forall|a: int| 0 <= a < s.len() implies #[trigger] name_at(t, a) == name_at(s, a) by {}
    assert forall|a: int, b: int|
        0 <= a < t.len() && 0 <= b < t.len() && #[trigger] name_at(t, a) == #[trigger] name_at(
            t,
            b,
        ) implies a == b by {
        assert(name_at(s, a) == name_at(s, b));
    }
    assert forall|k: Seq<char>| has_name(t, k) <==> (has_name(s, k) || k == e.name@) by {
        if has_name(s, k) {
            let a = position_of(s, k);
            assert(name_at(t, a) == k);
        }
        if k == e.name@ {
            assert(name_at(t, i) == k);
        }
        if has_name(t, k) {
            let a = position_of(t, k);
            assert(name_at(s, a) == k);
        }
    }
    assert forall|k: Seq<char>| has_name(t, k) implies #[trigger] entries_map(t)[k] == entries_map(
        s,
    ).insert(e.name@, e.value)[k] by {
        let a = position_of(t, k);
        lemma_entry_in_map(t, a);
        assert(name_at(s, a) == k);
        assert(name_at(s, i) == e.name@);
        if a != i {
            lemma_entry_in_map(s, a);
        }
    }
}

/// The pairs `pairs` list the map `m`: each pair is a key of `m` with its
/// value, each key of `m` has a pair, and no name stands in two pairs.
pub open spec fn lists_map<V>(pairs: Seq<(String, V)>, m: Map<Seq<char>, V>) -> bool {
    &&& forall|i: int|
        0 <= i < pairs.len() ==> m.contains_key(#[trigger] pairs[i].0@) && m[pairs[i].0@]
            == pairs[i].1
    &&& forall|k: Seq<char>|
        m.contains_key(k) ==> exists|i: int| 0 <= i < pairs.len() && #[trigger] pairs[i].0@ == k
    &&& forall|i: int, j: int|
        0 <= i < pairs.len() && 0 <= j < pairs.len() && #[trigger] pairs[i].0@
            == #[trigger] pairs[j].0@ ==> i == j
}

/// Pairs that repeat the entries of `s` position by position list the map
/// of `s`.
proof fn lemma_pairs_list_map<V>(s: Seq<Entry<V>>, pairs: Seq<(String, V)>)
    requires
        distinct_names(s),
        pairs.len() == s.len(),
        forall|i: int|
            0 <= i < s.len() ==> (#[trigger] pairs[i]).0@ == s[i].name@ && pairs[i].1 == s[i].value,
    ensures
        lists_map(pairs, entries_map(s)),
{
    let m = entries_map(s);
    assert forall|i: int| 0 <= i < pairs.len() implies m.contains_key(#[trigger] pairs[i].0@)
        && m[pairs[i].0@] == pairs[i].1 by {
        assert(pairs[i].0@ == s[i].name@);
        lemma_entry_in_map(s, i);
    }
    assert forall|k: Seq<char>| m.contains_key(k) implies exists|i: int|
        0 <= i < pairs.len() && #[trigger] pairs[i].0@ == k by {
        let i = position_of(s, k);
        assert(name_at(s, i) == k);
        assert(pairs[i].0@ == s[i].name@);
    }
    assert forall|i: int, j: int|
        0 <= i < pairs.len() && 0 <= j < pairs.len() && #[trigger] pairs[i].0@
            == #[trigger] pairs[j].0@ implies i == j by {
        assert(pairs[i].0@ == s[i].name@);
        assert(pairs[j].0@ == s[j].name@);
        assert(name_at(s, i) == name_at(s, j));
    }
}

/// A table from names to values, read as a finite map.
pub struct NameTable<V> {
    entries: Vec<Entry<V>>,
}

impl<V> View for NameTable<V> {
    type V = Map<Seq<char>, V>;

    closed spec fn view(&self) -> Map<Seq<char>, V> {
        entries_map(self.entries@)
    }
}

impl<V> NameTable<V> {
    #[verifier::type_invariant]
    spec fn names_are_distinct(self) -> bool {
        distinct_names(self.entries@)
    }
}

impl<V: Copy> NameTable<V> {
    /// The empty table.
    pub fn new() -> (table: Self)
        ensures
            table@ == Map::<Seq<char>, V>::empty(),
    {
        let table = NameTable { entries: Vec::new() };
        assert(table@ =~= Map::<Seq<char>, V>::empty());
        table
    }

    /// The position of `name` among the entries, if the table holds it.
    fn find(&self, name: &String) -> (found: Option<usize>)
        ensures
            match found {
                Some(i) => i < self.entries@.len() && self.entries@[i as int].name@ == name@,
                None => !has_name(self.entries@, name@),
            },
    {
        let mut i: usize = 0;
        while i < self.entries.len()
            invariant
                i <= self.entries@.len(),
                forall|j: int| 0 <= j < i ==> #[trigger] name_at(self.entries@, j) != name@,
            decreases self.entries@.len() - i,
        {
            if self.entries[i].name == *name {
                return Some(i);
            }
            i += 1;
        }
        None
    }

    /// The value held for `name`, if any.
    pub fn get(&self, name: &String) -> (value: Option<V>)
        ensures
            value == if self@.contains_key(name@) {
                Some(self@[name@])
            } else {
                None
            },
    {
        proof {
            use_type_invariant(self);
        }
        match self.find(name) {
            Some(i) => {
                proof {
                    lemma_entry_in_map(self.entries@, i as int);
                }
                Some(self.entries[i].value)
            },
            None => None,
        }
    }

    /// Holds `value` for `name` from now on, whether or not the table held
    /// the name before. Every other name keeps its value.
    pub fn set(&mut self, name: String, value: V)
        ensures
            final(self)@ == old(self)@.insert(name@, value),
    {
        proof {
            use_type_invariant(&*self);
        }
        let found = self.find(&name);
        let entry = Entry { name, value };
        let mut entries: Vec<Entry<V>> = Vec::new();
        std::mem::swap(&mut self.entries, &mut entries);
        match found {
            Some(i) => {
                proof {
                    lemma_update_inserts(entries@, i as int, entry);
                }
                entries.set(i, entry);
            },
            None => {
                proof {
                    lemma_push_inserts(entries@, entry);
                }
                entries.push(entry);
            },
        }
        self.entries = entries;
    }

    /// An independent copy of the table.
    pub fn snapshot(&self) -> (copy: Self)
        ensures
            copy@ == self@,
    {
        proof {
            use_type_invariant(self);
        }
        let mut entries: Vec<Entry<V>> = Vec::new();
        let mut i: usize = 0;
        while i < self.entries.len()
            invariant
                i <= self.entries@.len(),
                entries@ == self.entries@.take(i as int),
            decreases self.entries@.len() - i,
        {
            let entry = Entry { name: self.entries[i].name.clone(), value: self.entries[i].value };
            assert(entry == self.entries@[i as int]);
            entries.push(entry);
            assert(entries@ =~= self.entries@.take(i + 1));
            i += 1;
        }
        assert(entries@ =~= self.entries@);
        NameTable { entries }
    }

    /// The table's names with their values, each name once.
    pub fn to_vec(&self) -> (pairs: Vec<(String, V)>)
        ensures
            lists_map(pairs@, self@),
    {
        proof {
            use_type_invariant(self);
        }
        let mut pairs: Vec<(String, V)> = Vec::new();
        let mut i: usize = 0;
        while i < self.entries.len()
            invariant
                i <= self.entries@.len(),
                pairs@.len() == i,
                forall|j: int|
                    0 <= j < i ==> (#[trigger] pairs@[j]).0@ == self.entries@[j].name@
                        && pairs@[j].1 == self.entries@[j].value,
            decreases self.entries@.len() - i,
        {
            pairs.push((self.entries[i].name.clone(), self.entries[i].value));
            i += 1;
        }
        proof {
            lemma_pairs_list_map(self.entries@, pairs@);
        }
        pairs
    }
}

} // verus!
