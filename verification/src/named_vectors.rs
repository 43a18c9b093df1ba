//! All vector fields of one point, by name.

use vstd::prelude::*;
use vstd::std_specs::cmp::PartialEqSpecImpl;
use crate::name_map::NameMap;
use crate::name_map::entry_names;
use crate::name_map::lemma_lists_map_of;
use crate::name_map::lemma_map_of_next;
use crate::name_map::lemma_map_of_none;
use crate::name_map::lists;
use crate::name_map::map_of;
use crate::vectors::Vector;
use crate::vectors::VectorRef;
use crate::vectors::VectorView;

verus! {

/// A vector that is either held or borrowed.
#[derive(Debug)]
pub enum CowVector<'a> {
    Owned(Vector),
    Borrowed(VectorRef<'a>),
}

impl<'a> View for CowVector<'a> {
    type V = VectorView;

    open spec fn view(&self) -> VectorView {
        match self {
            CowVector::Owned(v) => v@,
            CowVector::Borrowed(v) => v@,
        }
    }
}

impl<'a> Clone for CowVector<'a> {
    fn clone(&self) -> (copy: Self)
        ensures
            copy@ == self@,
    {
        match self {
            CowVector::Owned(v) => CowVector::Owned(v.clone()),
            CowVector::Borrowed(v) => CowVector::Borrowed(*v),
        }
    }
}

impl<'a> CowVector<'a> {
    /// A borrowed form of the vector.
    pub fn as_vec_ref(&self) -> (r: VectorRef<'_>)
        ensures
            r@ == self@,
    {
        match self {
            CowVector::Owned(v) => v.to_vec_ref(),
            CowVector::Borrowed(v) => *v,
        }
    }

    /// The vector itself, copied if it was borrowed.
    pub fn into_owned(self) -> (v: Vector)
        ensures
            v@ == self@,
    {
        match self {
            CowVector::Owned(v) => v,
            CowVector::Borrowed(v) => v.to_owned(),
        }
    }
}

/// The content of each vector of a map from names to vectors.
pub open spec fn vector_views(m: Map<Seq<char>, Vector>) -> Map<Seq<char>, VectorView> {
    m.map_values(|v: Vector| v@)
}

/// The content of each vector of a map from names to held or borrowed vectors.
pub open spec fn cow_views<'a>(m: Map<Seq<char>, CowVector<'a>>) -> Map<Seq<char>, VectorView> {
    m.map_values(|v: CowVector<'a>| v@)
}

/// All vector fields of one point: a map from the name of a field to its
/// vector. A lookup of a name that is absent is a miss, not an empty vector.
#[derive(Debug)]
pub struct NamedVectors<'a> {
    map: NameMap<CowVector<'a>>,
}

impl<'a> View for NamedVectors<'a> {
    type V = Map<Seq<char>, VectorView>;

    closed spec fn view(&self) -> Map<Seq<char>, VectorView> {
        cow_views(self.map@)
    }
}

impl<'a> Clone for NamedVectors<'a> {
    fn clone(&self) -> (copy: Self)
        ensures
            copy@ == self@,
    {
        let copy = NamedVectors { map: self.map.clone() };
        proof {
            assert(copy@ =~= self@);
        }
        copy
    }
}

impl<'a> PartialEq for NamedVectors<'a> {
    fn eq(&self, other: &Self) -> (same: bool)
        ensures
            same == (self@ == other@),
    {
        let n = self.len();
        if n != other.len() {
            return false;
        }
        let entries = self.map.entries();
        let ghost names = entry_names(entries@);
        let mut i: usize = 0;
        while i < entries.len()
            invariant
                i <= entries.len(),
                lists(entries@, self.map@),
                forall|j: int|
                    0 <= j < i ==> other@.contains_key(#[trigger] entries@[j].0@)
                        && other@[entries@[j].0@] == entries@[j].1@,
            decreases entries.len() - i,
        {
            let ghost name = entries@[i as int].0@;
            proof {
                assert(self.map@.contains_key(name));
                assert(self@.contains_key(name) && self@[name] == entries@[i as int].1@);
            }
            match other.get(entries[i].0.as_str()) {
                Some(vector) => {
                    if !(vector == entries[i].1.as_vec_ref()) {
                        return false;
                    }
                },
                None => {
                    return false;
                },
            }
            i += 1;
        }
        proof {
            assert forall|k: Seq<char>| self@.contains_key(k) implies other@.contains_key(k)
                && other@[k] == self@[k] by {
                let j = names.index_of(k);
                assert(names[j] == entries@[j].0@);
            }
            assert(self@.dom().subset_of(other@.dom()));
            vstd::set_lib::lemma_subset_equality(self@.dom(), other@.dom());
            assert(self@ =~= other@);
        }
        true
    }
}

/// Two collections are equal when they hold vectors of the same content
/// under the same names.
impl<'a> PartialEqSpecImpl for NamedVectors<'a> {
    open spec fn obeys_eq_spec() -> bool {
        true
    }

    open spec fn eq_spec(&self, other: &Self) -> bool {
        self@ == other@
    }
}

impl<'a> Default for NamedVectors<'a> {
    fn default() -> (vectors: Self)
        ensures
            vectors@ == Map::<Seq<char>, VectorView>::empty(),
    {
        NamedVectors::new()
    }
}

impl<'a> NamedVectors<'a> {
    /// A collection without vectors.
    pub fn new() -> (vectors: Self)
        ensures
            vectors@ == Map::<Seq<char>, VectorView>::empty(),
    {
        let vectors = NamedVectors { map: NameMap::new() };
        assert(vectors@ =~= Map::<Seq<char>, VectorView>::empty());
        vectors
    }

    /// A collection of one borrowed vector.
    pub fn from_ref(key: &str, value: VectorRef<'a>) -> (vectors: Self)
        ensures
            vectors@ == Map::<Seq<char>, VectorView>::empty().insert(key@, value@),
    {
        let mut vectors = NamedVectors::new();
        vectors.insert_ref(key, value);
        vectors
    }

    /// A collection that holds the vectors of `map`.
    pub fn from_map(map: NameMap<Vector>) -> (vectors: NamedVectors<'static>)
        ensures
            vectors@ == vector_views(map@),
    {
        let entries = map.into_entries();
        let ghost listed = entries@;
        let mut vectors = NamedVectors::new();
        proof {
            lemma_lists_map_of(listed, map@);
            lemma_map_of_none(listed);
            assert(vectors@ =~= vector_views(map_of(listed.take(0))));
        }
        for entry in it: entries
            invariant
                it.seq() == listed,
                entry_names(listed).no_duplicates(),
                vectors@ == vector_views(map_of(listed.take(it.index() as int))),
        {
            proof {
                lemma_map_of_next(listed, it.index() as int);
            }
            vectors.insert(entry.0, entry.1);
            assert(vectors@ =~= vector_views(map_of(listed.take(it.index() + 1))));
        }
        proof {
            assert(listed.take(listed.len() as int) =~= listed);
        }
        vectors
    }

    /// A collection that borrows the vectors of `map`.
    pub fn from_map_ref(map: &'a NameMap<Vector>) -> (vectors: Self)
        ensures
            vectors@ == vector_views(map@),
    {
        let entries = map.entries();
        let ghost listed = entries@;
        let mut vectors = NamedVectors::new();
        proof {
            lemma_lists_map_of(listed, map@);
            lemma_map_of_none(listed);
            assert(vectors@ =~= vector_views(map_of(listed.take(0))));
        }
        let mut i: usize = 0;
        while i < entries.len()
            invariant
                i <= entries.len(),
                entries@ == listed,
                entry_names(listed).no_duplicates(),
                vectors@ == vector_views(map_of(listed.take(i as int))),
            decreases entries.len() - i,
        {
            proof {
                lemma_map_of_next(listed, i as int);
            }
            vectors.insert_ref(entries[i].0.as_str(), entries[i].1.to_vec_ref());
            assert(vectors@ =~= vector_views(map_of(listed.take(i + 1))));
            i += 1;
        }
        proof {
            assert(listed.take(listed.len() as int) =~= listed);
        }
        vectors
    }

    /// Gives up the vectors as a map that holds each of them, copying those
    /// that were borrowed.
    pub fn into_owned_map(self) -> (map: NameMap<Vector>)
        ensures
            vector_views(map@) == self@,
    {
        let ghost all = self.map@;
        let entries = self.map.into_entries();
        let ghost listed = entries@;
        let mut map: NameMap<Vector> = NameMap::new();
        proof {
            lemma_lists_map_of(listed, all);
            lemma_map_of_none(listed);
            assert(vector_views(map@) =~= cow_views(map_of(listed.take(0))));
        }
        for entry in it: entries
            invariant
                it.seq() == listed,
                entry_names(listed).no_duplicates(),
                vector_views(map@) == cow_views(map_of(listed.take(it.index() as int))),
        {
            proof {
                lemma_map_of_next(listed, it.index() as int);
            }
            let ghost before = map@;
            let ghost name = entry.0@;
            let ghost content = entry.1@;
            map.insert(entry.0, entry.1.into_owned());
            proof {
                let part = map_of(listed.take(it.index() as int));
                assert(vector_views(map@) =~= vector_views(before).insert(name, content));
                assert(cow_views(part.insert(name, listed[it.index() as int].1)) =~= cow_views(
                    part,
                ).insert(name, content));
            }
        }
        proof {
            assert(listed.take(listed.len() as int) =~= listed);
        }
        map
    }

    /// A collection holds finitely many vectors.
    pub proof fn lemma_finite(self)
        ensures
            self@.dom().finite(),
    {
        self.map.lemma_finite();
        assert(self@.dom() =~= self.map@.dom());
    }

    /// Number of vectors.
    pub fn len(&self) -> (n: usize)
        ensures
            n == self@.len(),
            self@.dom().finite(),
    {
        let n = self.map.len();
        proof {
            assert(self@.dom() =~= self.map@.dom());
        }
        n
    }

    /// Whether the collection has no vector.
    pub fn is_empty(&self) -> (empty: bool)
        ensures
            empty == (self@ == Map::<Seq<char>, VectorView>::empty()),
            empty == (self@.len() == 0),
    {
        let empty = self.map.is_empty();
        proof {
            assert(self@.dom() =~= self.map@.dom());
            if empty {
                assert(self@ =~= Map::<Seq<char>, VectorView>::empty());
            } else if self@ == Map::<Seq<char>, VectorView>::empty() {
                assert(self.map@ =~= Map::<Seq<char>, CowVector<'a>>::empty());
            }
        }
        empty
    }

    /// Whether a vector is stored under `name`.
    pub fn contains_key(&self, name: &str) -> (found: bool)
        ensures
            found == self@.contains_key(name@),
    {
        self.map.contains_key(name)
    }

    /// The vector stored under `name`, if there is one.
    pub fn get(&self, name: &str) -> (vector: Option<VectorRef<'_>>)
        ensures
            match vector {
                Some(v) => self@.contains_key(name@) && self@[name@] == v@,
                None => !self@.contains_key(name@),
            },
    {
        match self.map.get(name) {
            Some(v) => Some(v.as_vec_ref()),
            None => None,
        }
    }

    /// Stores `vector` under `name`, in place of a vector already stored there.
    pub fn insert(&mut self, name: String, vector: Vector)
        ensures
            final(self)@ == old(self)@.insert(name@, vector@),
    {
        self.map.insert(name, CowVector::Owned(vector));
        assert(self@ =~= old(self)@.insert(name@, vector@));
    }

    /// Stores the borrowed `vector` under `name`, in place of a vector
    /// already stored there.
    pub fn insert_ref(&mut self, name: &str, vector: VectorRef<'a>)
        ensures
            final(self)@ == old(self)@.insert(name@, vector@),
    {
        self.map.insert(name.to_owned(), CowVector::Borrowed(vector));
        assert(self@ =~= old(self)@.insert(name@, vector@));
    }
}

} // verus!
