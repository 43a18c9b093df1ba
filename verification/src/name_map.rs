//! A map from vector names to values.

use vstd::prelude::*;
use crate::equality::names_equal;

verus! {

/// A small map from vector names to values, kept as a list of entries in
/// which no name occurs twice.
#[derive(Debug)]
pub struct NameMap<V> {
    entries: Vec<(String, V)>,
}

/// The names of a list of entries, in order.
pub open spec fn entry_names<V>(entries: Seq<(String, V)>) -> Seq<Seq<char>> {
    Seq::new(entries.len(), |i: int| entries[i].0@)
}

/// `entries` lists `m`: every entry is a binding of `m`, every binding of `m`
/// is an entry, and no name is listed twice.
pub open spec fn lists<V>(entries: Seq<(String, V)>, m: Map<Seq<char>, V>) -> bool {
    &&& entry_names(entries).no_duplicates()
    &&& forall|i: int|
        0 <= i < entries.len() ==> m.contains_key(#[trigger] entries[i].0@) && m[entries[i].0@]
            == entries[i].1
    &&& forall|k: Seq<char>| #[trigger] m.contains_key(k) ==> entry_names(entries).contains(k)
}

/// The map that a list of entries denotes when no name occurs twice.
pub open spec fn map_of<V>(entries: Seq<(String, V)>) -> Map<Seq<char>, V> {
    Map::new(
        |k: Seq<char>| entry_names(entries).contains(k),
        |k: Seq<char>| entries[entry_names(entries).index_of(k)].1,
    )
}

/// A duplicate-free list of entries lists the map it denotes.
pub proof fn lemma_map_of_lists<V>(entries: Seq<(String, V)>)
    requires
        entry_names(entries).no_duplicates(),
    ensures
        lists(entries, map_of(entries)),
        map_of(entries).dom().finite(),
        map_of(entries).len() == entries.len(),
{
    let names = entry_names(entries);
    let m = map_of(entries);
    assert forall|i: int| 0 <= i < entries.len() implies m.contains_key(#[trigger] entries[i].0@)
        && m[entries[i].0@] == entries[i].1 by {
        assert(names[i] == entries[i].0@);
        let j = names.index_of(entries[i].0@);
        assert(0 <= j < names.len() && names[j] == names[i]);
    }
    assert(m.dom() =~= names.to_set());
    names.unique_seq_to_set();
    vstd::seq_lib::seq_to_set_is_finite(names);
}

/// Two maps listed by the same entries are the same map.
pub proof fn lemma_lists_unique<V>(
    entries: Seq<(String, V)>,
    a: Map<Seq<char>, V>,
    b: Map<Seq<char>, V>,
)
    requires
        lists(entries, a),
        lists(entries, b),
    ensures
        a == b,
{
    let names = entry_names(entries);
    assert forall|k: Seq<char>| a.contains_key(k) <==> b.contains_key(k) by {
        if a.contains_key(k) {
            let i = names.index_of(k);
            assert(names[i] == entries[i].0@);
        }
        if b.contains_key(k) {
            let i = names.index_of(k);
            assert(names[i] == entries[i].0@);
        }
    }
    assert forall|k: Seq<char>| a.contains_key(k) implies a[k] == b[k] by {
        let i = names.index_of(k);
        assert(names[i] == entries[i].0@);
    }
    assert(a =~= b);
}

/// A map is the one that its list of entries denotes.
pub proof fn lemma_lists_map_of<V>(entries: Seq<(String, V)>, m: Map<Seq<char>, V>)
    requires
        lists(entries, m),
    ensures
        map_of(entries) == m,
        m.dom().finite(),
        m.len() == entries.len(),
{
    lemma_map_of_lists(entries);
    lemma_lists_unique(entries, map_of(entries), m);
}

/// No entry is listed before the first one.
pub proof fn lemma_map_of_none<V>(entries: Seq<(String, V)>)
    ensures
        map_of(entries.take(0)) == Map::<Seq<char>, V>::empty(),
{
    assert(map_of(entries.take(0)) =~= Map::<Seq<char>, V>::empty());
}

/// Listing one more entry of a duplicate-free list binds its name to its
/// value.
pub proof fn lemma_map_of_next<V>(entries: Seq<(String, V)>, n: int)
    requires
        entry_names(entries).no_duplicates(),
        0 <= n < entries.len(),
    ensures
        map_of(entries.take(n + 1)) == map_of(entries.take(n)).insert(
            entries[n].0@,
            entries[n].1,
        ),
        !map_of(entries.take(n)).contains_key(entries[n].0@),
        n + 1 == entries.len() ==> entries.take(n + 1) == entries,
{
    let names = entry_names(entries);
    let short = entries.take(n);
    let long = entries.take(n + 1);
    assert forall|i: int| 0 <= i < n + 1 implies names[i] == entry_names(long)[i] by {}
    assert forall|i: int| 0 <= i < n implies names[i] == entry_names(short)[i] by {}
    assert forall|i: int, j: int|
        0 <= i < long.len() && 0 <= j < long.len() && i != j implies entry_names(long)[i]
        != entry_names(long)[j] by {
        assert(names[i] != names[j]);
    }
    assert forall|i: int, j: int|
        0 <= i < short.len() && 0 <= j < short.len() && i != j implies entry_names(short)[i]
        != entry_names(short)[j] by {
        assert(names[i] != names[j]);
    }
    lemma_map_of_lists(short);
    lemma_map_of_lists(long);
    let grown = map_of(short).insert(entries[n].0@, entries[n].1);
    if map_of(short).contains_key(entries[n].0@) {
        let i = entry_names(short).index_of(entries[n].0@);
        assert(names[i] == names[n]);
    }
    assert forall|k: Seq<char>| #[trigger] grown.contains_key(k) implies map_of(
        long,
    ).contains_key(k) && map_of(long)[k] == grown[k] by {
        if k == entries[n].0@ {
            assert(long[n].0@ == k);
        } else {
            let i = entry_names(short).index_of(k);
            assert(short[i].0@ == k);
            assert(long[i].0@ == k);
        }
    }
    assert forall|k: Seq<char>| #[trigger] map_of(long).contains_key(k) implies grown.contains_key(
        k,
    ) by {
        let i = entry_names(long).index_of(k);
        assert(long[i].0@ == k);
        if i < n {
            assert(short[i].0@ == k);
            assert(entry_names(short)[i] == k);
        }
    }
    assert(map_of(long) =~= grown);
    if n + 1 == entries.len() {
        assert(entries.take(n + 1) =~= entries);
    }
}

/// The map built by binding the entries one after the other, a later entry
/// replacing an earlier one of the same name.
pub open spec fn bind_all<V>(entries: Seq<(String, V)>) -> Map<Seq<char>, V>
    decreases entries.len(),
{
    if entries.len() == 0 {
        Map::empty()
    } else {
        bind_all(entries.drop_last()).insert(entries.last().0@, entries.last().1)
    }
}

impl<V> View for NameMap<V> {
    type V = Map<Seq<char>, V>;

    closed spec fn view(&self) -> Map<Seq<char>, V> {
        map_of(self.entries@)
    }
}

impl<V: Clone> Clone for NameMap<V> {
    fn clone(&self) -> (copy: Self)
        ensures
            copy@.dom() == self@.dom(),
            forall|k: Seq<char>| #[trigger] self@.contains_key(k) ==> cloned(self@[k], copy@[k]),
    {
        proof {
            use_type_invariant(self);
            lemma_map_of_lists(self.entries@);
        }
        let mut entries: Vec<(String, V)> = Vec::new();
        let mut i: usize = 0;
        while i < self.entries.len()
            invariant
                i <= self.entries.len(),
                entries.len() == i,
                forall|j: int| 0 <= j < i ==> (#[trigger] entries[j]).0@ == self.entries[j].0@,
                forall|j: int| 0 <= j < i ==> cloned(self.entries[j].1, (#[trigger] entries[j]).1),
            decreases self.entries.len() - i,
        {
            entries.push((self.entries[i].0.clone(), self.entries[i].1.clone()));
            i += 1;
        }
        proof {
            assert(entry_names(entries@) =~= entry_names(self.entries@));
            lemma_map_of_lists(entries@);
            assert(map_of(entries@).dom() =~= self@.dom());
            assert forall|k: Seq<char>| #[trigger] self@.contains_key(k) implies cloned(
                self@[k],
                map_of(entries@)[k],
            ) by {
                let j = entry_names(self.entries@).index_of(k);
                assert(self.entries@[j].0@ == k);
                assert(entries@[j].0@ == k);
            }
        }
        NameMap { entries }
    }
}

impl<V> NameMap<V> {
    #[verifier::type_invariant]
    spec fn distinct(self) -> bool {
        entry_names(self.entries@).no_duplicates()
    }

    /// An empty map.
    pub fn new() -> (m: Self)
        ensures
            m@ == Map::<Seq<char>, V>::empty(),
    {
        let m = NameMap { entries: Vec::new() };
        proof {
            assert(m@ =~= Map::<Seq<char>, V>::empty());
        }
        m
    }

    /// Position of `name` among the entries, if it is bound.
    fn position(&self, name: &str) -> (at: Option<usize>)
        ensures
            match at {
                Some(i) => i < self.entries.len() && self.entries[i as int].0@ == name@,
                None => !entry_names(self.entries@).contains(name@),
            },
    {
        let mut i: usize = 0;
        while i < self.entries.len()
            invariant
                i <= self.entries.len(),
                forall|j: int| 0 <= j < i ==> self.entries[j].0@ != name@,
            decreases self.entries.len() - i,
        {
            if names_equal(self.entries[i].0.as_str(), name) {
                return Some(i);
            }
            i += 1;
        }
        None
    }

    /// A map binds finitely many names.
    pub proof fn lemma_finite(self)
        ensures
            self@.dom().finite(),
    {
        let names = entry_names(self.entries@);
        assert(self@.dom() =~= names.to_set());
        vstd::seq_lib::seq_to_set_is_finite(names);
    }

    /// Number of bound names.
    pub fn len(&self) -> (n: usize)
        ensures
            n == self@.len(),
            self@.dom().finite(),
    {
        proof {
            use_type_invariant(self);
            lemma_map_of_lists(self.entries@);
        }
        self.entries.len()
    }

    /// Whether no name is bound.
    pub fn is_empty(&self) -> (empty: bool)
        ensures
            empty == (self@ == Map::<Seq<char>, V>::empty()),
            empty == (self@.len() == 0),
    {
        proof {
            use_type_invariant(self);
            lemma_map_of_lists(self.entries@);
            if self.entries@.len() == 0 {
                assert(self@ =~= Map::<Seq<char>, V>::empty());
            } else {
                assert(self@.contains_key(self.entries@[0].0@));
            }
        }
        self.entries.len() == 0
    }

    /// Whether `name` is bound.
    pub fn contains_key(&self, name: &str) -> (found: bool)
        ensures
            found == self@.contains_key(name@),
    {
        match self.position(name) {
            Some(i) => {
                assert(entry_names(self.entries@)[i as int] == name@);
                true
            },
            None => false,
        }
    }

    /// The value bound to `name`. An unbound name is a miss.
    pub fn get(&self, name: &str) -> (value: Option<&V>)
        ensures
            value == (if self@.contains_key(name@) {
                Some(&self@[name@])
            } else {
                None
            }),
    {
        proof {
            use_type_invariant(self);
            lemma_map_of_lists(self.entries@);
        }
        match self.position(name) {
            Some(i) => {
                assert(entry_names(self.entries@)[i as int] == name@);
                Some(&self.entries[i].1)
            },
            None => None,
        }
    }

    /// Binds `name` to `value`, replacing the value of a name already bound.
    pub fn insert(&mut self, name: String, value: V)
        ensures
            final(self)@ == old(self)@.insert(name@, value),
    {
        proof {
            use_type_invariant(&*self);
            lemma_map_of_lists(self.entries@);
        }
        let at = self.position(name.as_str());
        let ghost before = self.entries@;
        let mut entries: Vec<(String, V)> = Vec::new();
        std::mem::swap(&mut entries, &mut self.entries);
        match at {
            Some(i) => {
                entries[i] = (name, value);
                proof {
                    let after = entries@;
                    assert(entry_names(after) =~= entry_names(before));
                    lemma_map_of_lists(after);
                    assert(map_of(after) =~= map_of(before).insert(name@, value)) by {
                        assert forall|k: Seq<char>| map_of(before).contains_key(k) && k != name@
                            implies map_of(after)[k] == map_of(before)[k] by {
                            let j = entry_names(before).index_of(k);
                            assert(entry_names(before)[j] == before[j].0@);
                            assert(after[j] == before[j]);
                        }
                        assert(after[i as int].0@ == name@);
                    }
                }
            },
            None => {
                entries.push((name, value));
                proof {
                    let after = entries@;
                    let n = before.len() as int;
                    assert(after.take(n) =~= before);
                    assert(after.take(n + 1) =~= after);
                    assert(entry_names(after) =~= entry_names(before).push(name@));
                    lemma_map_of_next(after, n);
                }
            },
        }
        self.entries = entries;
    }

    /// The bindings as a list of entries, each name once.
    pub fn entries(&self) -> (list: &[(String, V)])
        ensures
            lists(list@, self@),
    {
        proof {
            use_type_invariant(self);
            lemma_map_of_lists(self.entries@);
        }
        self.entries.as_slice()
    }

    /// Gives up the bindings as a list of entries, each name once.
    pub fn into_entries(self) -> (list: Vec<(String, V)>)
        ensures
            lists(list@, self@),
    {
        proof {
            use_type_invariant(&self);
            lemma_map_of_lists(self.entries@);
        }
        self.entries
    }

    /// Builds a map by binding the entries in order.
    pub fn from_entries(entries: Vec<(String, V)>) -> (m: Self)
        ensures
            m@ == bind_all(entries@),
    {
        let mut m = NameMap::new();
        let ghost all = entries@;
        for entry in it: entries
            invariant
                it.seq() == all,
                m@ == bind_all(all.take(it.index() as int)),
        {
            proof {
                let n = it.index() as int;
                assert(all.take(n + 1).drop_last() =~= all.take(n));
            }
            m.insert(entry.0, entry.1);
        }
        proof {
            assert(all.take(all.len() as int) =~= all);
        }
        m
    }
}

} // verus!
