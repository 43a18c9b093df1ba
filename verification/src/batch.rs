//! The vectors of several points, batched, and their transposition into one
//! collection per point.

use vstd::prelude::*;
use vstd::std_specs::convert::FromSpecImpl;
use crate::name_map::NameMap;
use crate::name_map::entry_names;
use crate::name_map::lemma_lists_map_of;
use crate::name_map::lemma_map_of_next;
use crate::name_map::lemma_map_of_none;
use crate::name_map::lists;
use crate::name_map::map_of;
use crate::named_vectors::NamedVectors;
use crate::validation::Rule;
use crate::validation::Validate;
use crate::validation::ValidationErrors;
use crate::validation::errors_of_all;
use crate::validation::lemma_same_findings;
use crate::validation::some_item_breaks;
use crate::validation::validate_iter;
use crate::vector_struct::default_vector;
use crate::vector_struct::single_default;
use crate::vectors::Vector;
use crate::vectors::VectorElementType;
use crate::vectors::VectorType;
use crate::vectors::VectorView;

verus! {

/// The content of each vector of a list.
pub open spec fn vectors_of(list: Seq<Vector>) -> Seq<VectorView> {
    list.map_values(|v: Vector| v@)
}

/// The content of each list of a map from names to lists of vectors.
pub open spec fn lists_of(m: Map<Seq<char>, Vec<Vector>>) -> Map<Seq<char>, Seq<VectorView>> {
    m.map_values(|list: Vec<Vector>| vectors_of(list@))
}

/// The content of each dense vector of a list.
pub open spec fn dense_of(list: Seq<VectorType>) -> Seq<Seq<VectorElementType>> {
    list.map_values(|v: VectorType| v@)
}

/// The content of each collection of a list.
pub open spec fn collections_of(list: Seq<NamedVectors<'static>>) -> Seq<
    Map<Seq<char>, VectorView>,
> {
    list.map_values(|c: NamedVectors<'static>| c@)
}

/// Every list has `n` vectors: one for each of `n` points.
pub open spec fn aligned(m: Map<Seq<char>, Seq<VectorView>>, n: nat) -> bool {
    forall|k: Seq<char>| m.contains_key(k) ==> (#[trigger] m[k]).len() == n
}

/// All lists have the same number of vectors.
pub open spec fn uniform(m: Map<Seq<char>, Seq<VectorView>>) -> bool {
    forall|j: Seq<char>, k: Seq<char>|
        m.contains_key(j) && m.contains_key(k) ==> (#[trigger] m[j]).len() == (
        #[trigger] m[k]).len()
}

/// The number of vectors that each list of a uniform map has; 0 where there
/// is no list.
pub open spec fn common_len(m: Map<Seq<char>, Seq<VectorView>>) -> nat {
    if exists|k: Seq<char>| m.contains_key(k) {
        m[choose|k: Seq<char>| m.contains_key(k)].len()
    } else {
        0
    }
}

/// The vectors of point `i`: under each name, the vector at position `i` of
/// that name's list.
pub open spec fn row(m: Map<Seq<char>, Seq<VectorView>>, i: int) -> Map<Seq<char>, VectorView> {
    Map::new(|k: Seq<char>| m.contains_key(k), |k: Seq<char>| m[k][i])
}

/// One collection for each of `n` points, from lists by name.
pub open spec fn transposed(m: Map<Seq<char>, Seq<VectorView>>, n: nat) -> Seq<
    Map<Seq<char>, VectorView>,
> {
    Seq::new(n, |i: int| row(m, i))
}

/// One collection for each dense vector, holding it under the default name.
pub open spec fn singles(list: Seq<Seq<VectorElementType>>) -> Seq<Map<Seq<char>, VectorView>> {
    list.map_values(|v: Seq<VectorElementType>| single_default(v))
}

/// Whether some vector of some list breaks `rule`.
pub open spec fn some_listed_vector_breaks(m: Map<Seq<char>, Seq<VectorView>>, rule: Rule) -> bool {
    exists|k: Seq<char>, i: int|
        m.contains_key(k) && 0 <= i < m[k].len() && (#[trigger] m[k][i]).errors().has(rule)
}

/// The rules broken by at least one vector of the lists.
pub open spec fn errors_of_lists(m: Map<Seq<char>, Seq<VectorView>>) -> ValidationErrors {
    ValidationErrors {
        values_length: some_listed_vector_breaks(m, Rule::ValuesLength),
        indices_order: some_listed_vector_breaks(m, Rule::IndicesOrder),
    }
}

/// The findings over lists with one more list, under a new name, are those
/// over the lists before together with those over the new list.
pub proof fn lemma_errors_of_lists_insert(
    m: Map<Seq<char>, Seq<VectorView>>,
    name: Seq<char>,
    list: Seq<Vector>,
)
    requires
        !m.contains_key(name),
    ensures
        errors_of_lists(m.insert(name, vectors_of(list))) == errors_of_lists(m).union(
            errors_of_all(list),
        ),
{
    let column = vectors_of(list);
    let grown = m.insert(name, column);
    assert forall|rule: Rule|
        some_listed_vector_breaks(grown, rule) == (some_listed_vector_breaks(m, rule)
            || some_item_breaks(list, rule)) by {
        if some_listed_vector_breaks(m, rule) {
            let (k, i) = choose|k: Seq<char>, i: int|
                m.contains_key(k) && 0 <= i < m[k].len() && (#[trigger] m[k][i]).errors().has(rule);
            assert(grown.contains_key(k) && grown[k][i].errors().has(rule));
        }
        if some_item_breaks(list, rule) {
            let i = choose|i: int| 0 <= i < list.len() && (#[trigger] list[i]).errors().has(rule);
            assert(grown.contains_key(name) && grown[name][i].errors().has(rule));
        }
        if some_listed_vector_breaks(grown, rule) {
            let (k, i) = choose|k: Seq<char>, i: int|
                grown.contains_key(k) && 0 <= i < grown[k].len() && (
                #[trigger] grown[k][i]).errors().has(rule);
            if k == name {
                assert(list[i].errors().has(rule));
            } else {
                assert(m.contains_key(k) && m[k][i].errors().has(rule));
            }
        }
    }
    lemma_same_findings(
        errors_of_lists(grown),
        errors_of_lists(m).union(errors_of_all(list)),
    );
}

/// The vectors of several points, batched: one dense vector per point, or
/// for each name one vector per point.
#[derive(Debug)]
pub enum BatchVectorStruct {
    Single(Vec<VectorType>),
    Multi(NameMap<Vec<Vector>>),
}

/// The mathematical content of a `BatchVectorStruct`.
pub enum BatchVectorStructView {
    Single(Seq<Seq<VectorElementType>>),
    Multi(Map<Seq<char>, Seq<VectorView>>),
}

impl BatchVectorStructView {
    /// Whether the batch holds vectors for `num_records` points: each list by
    /// name has one vector per point. A batch of unnamed vectors states its
    /// own number of points.
    pub open spec fn fits(self, num_records: nat) -> bool {
        match self {
            BatchVectorStructView::Single(_) => true,
            BatchVectorStructView::Multi(m) => aligned(m, num_records),
        }
    }

    /// The rules broken by at least one of the vectors.
    pub open spec fn errors(self) -> ValidationErrors {
        match self {
            BatchVectorStructView::Single(_) => ValidationErrors::none(),
            BatchVectorStructView::Multi(m) => errors_of_lists(m),
        }
    }

    /// The collection of each point. A batch by name without any name gives
    /// `num_records` empty collections.
    pub open spec fn all_vectors(self, num_records: nat) -> Seq<Map<Seq<char>, VectorView>> {
        match self {
            BatchVectorStructView::Single(list) => singles(list),
            BatchVectorStructView::Multi(m) => transposed(m, num_records),
        }
    }
}

impl View for BatchVectorStruct {
    type V = BatchVectorStructView;

    open spec fn view(&self) -> BatchVectorStructView {
        match self {
            BatchVectorStruct::Single(list) => BatchVectorStructView::Single(dense_of(list@)),
            BatchVectorStruct::Multi(m) => BatchVectorStructView::Multi(lists_of(m@)),
        }
    }
}

impl Clone for BatchVectorStruct {
    fn clone(&self) -> (copy: Self)
        ensures
            copy@ == self@,
    {
        match self {
            BatchVectorStruct::Single(list) => {
                let copy = list.clone();
                proof {
                    assert(dense_of(copy@) =~= dense_of(list@));
                }
                BatchVectorStruct::Single(copy)
            },
            BatchVectorStruct::Multi(m) => {
                let copy = m.clone();
                proof {
                    assert forall|k: Seq<char>| #[trigger] m@.contains_key(k) implies vectors_of(
                        copy@[k]@,
                    ) == vectors_of(m@[k]@) by {
                        assert(vectors_of(copy@[k]@) =~= vectors_of(m@[k]@));
                    }
                    assert(lists_of(copy@) =~= lists_of(m@));
                }
                BatchVectorStruct::Multi(copy)
            },
        }
    }
}

impl From<Vec<VectorType>> for BatchVectorStruct {
    fn from(v: Vec<VectorType>) -> (batch: Self)
        ensures
            batch == BatchVectorStruct::Single(v),
    {
        BatchVectorStruct::Single(v)
    }
}

impl FromSpecImpl<Vec<VectorType>> for BatchVectorStruct {
    open spec fn obeys_from_spec() -> bool {
        true
    }

    open spec fn from_spec(v: Vec<VectorType>) -> Self {
        BatchVectorStruct::Single(v)
    }
}

/// In a uniform map every list has the common length.
pub proof fn lemma_uniform_aligned(m: Map<Seq<char>, Seq<VectorView>>)
    requires
        uniform(m),
    ensures
        aligned(m, common_len(m)),
{
    if exists|k: Seq<char>| m.contains_key(k) {
        let w = choose|k: Seq<char>| m.contains_key(k);
        assert forall|k: Seq<char>| m.contains_key(k) implies (#[trigger] m[k]).len()
            == common_len(m) by {
            assert(m[k].len() == m[w].len());
        }
    }
}

/// Lists that are aligned with `n` points are uniform, and where there is a
/// list their common length is `n`.
pub proof fn lemma_aligned_uniform(m: Map<Seq<char>, Seq<VectorView>>, n: nat)
    requires
        aligned(m, n),
    ensures
        uniform(m),
        (exists|k: Seq<char>| m.contains_key(k)) ==> common_len(m) == n,
{
    assert forall|j: Seq<char>, k: Seq<char>| m.contains_key(j) && m.contains_key(k) implies (
    #[trigger] m[j]).len() == (#[trigger] m[k]).len() by {
        assert(m[j].len() == n);
        assert(m[k].len() == n);
    }
    if exists|k: Seq<char>| m.contains_key(k) {
        let w = choose|k: Seq<char>| m.contains_key(k);
        assert(m[w].len() == n);
    }
}

/// Turns lists of vectors by name into one collection per point: the
/// collection of point `i` holds, under each name, the vector at position
/// `i` of that name's list. All lists must have the same length.
pub fn transpose_map_into_named_vector(map: NameMap<Vec<Vector>>) -> (result: Vec<
    NamedVectors<'static>,
>)
    requires
        uniform(lists_of(map@)),
    ensures
        collections_of(result@) == transposed(lists_of(map@), common_len(lists_of(map@))),
{
    let ghost whole = lists_of(map@);
    let ghost n = common_len(whole);
    let entries = map.into_entries();
    let ghost listed = entries@;
    let mut result: Vec<NamedVectors<'static>> = Vec::new();
    proof {
        lemma_lists_map_of(listed, map@);
        lemma_map_of_none(listed);
        lemma_uniform_aligned(whole);
        assert forall|j: int| 0 <= j < listed.len() implies (#[trigger] listed[j]).1@.len()
            == n by {
            assert(map@.contains_key(listed[j].0@));
            assert(whole.contains_key(listed[j].0@));
            assert(whole[listed[j].0@].len() == n);
        }
    }
    for entry in it: entries
        invariant
            it.seq() == listed,
            entry_names(listed).no_duplicates(),
            forall|j: int| 0 <= j < listed.len() ==> (#[trigger] listed[j]).1@.len() == n,
            result.len() == (if it.index() == 0 {
                0
            } else {
                n
            }),
            forall|p: int|
                0 <= p < result.len() ==> (#[trigger] result[p])@ == row(
                    lists_of(map_of(listed.take(it.index() as int))),
                    p,
                ),
    {
        let ghost at = it.index() as int;
        let ghost before = lists_of(map_of(listed.take(at)));
        let ghost after = lists_of(map_of(listed.take(at + 1)));
        let key = entry.0;
        let values = entry.1;
        let ghost column = vectors_of(values@);
        proof {
            lemma_map_of_next(listed, at);
            assert(values@.len() == n);
            assert(after =~= before.insert(key@, column));
        }
        result.truncate(values.len());
        while result.len() < values.len()
            invariant
                result.len() <= values.len(),
                values@.len() == n,
                forall|p: int| 0 <= p < result.len() ==> (#[trigger] result[p])@ == row(before, p),
                at == 0 || result.len() == n,
                at == 0 ==> before =~= Map::<Seq<char>, Seq<VectorView>>::empty(),
            decreases values.len() - result.len(),
        {
            result.push(NamedVectors::new());
            proof {
                let last = result.len() - 1;
                assert(result[last]@ =~= row(before, last));
            }
        }
        let mut i: usize = 0;
        for value in column_it: values
            invariant
                i == column_it.index(),
                column_it.seq().len() == n,
                vectors_of(column_it.seq()) == column,
                result.len() == n,
                forall|p: int|
                    0 <= p < i ==> (#[trigger] result[p])@ == row(before, p).insert(
                        key@,
                        column[p],
                    ),
                forall|p: int| i <= p < n ==> (#[trigger] result[p])@ == row(before, p),
        {
            let ghost content = value@;
            proof {
                assert(column[i as int] == column_it.seq()[i as int]@);
            }
            result[i].insert(key.clone(), value);
            i += 1;
        }
        proof {
            assert forall|p: int| 0 <= p < result.len() implies (#[trigger] result[p])@ == row(
                after,
                p,
            ) by {
                assert(row(before, p).insert(key@, column[p]) =~= row(after, p));
            }
        }
    }
    proof {
        assert(listed.take(listed.len() as int) =~= listed);
        if listed.len() == 0 {
            assert(whole =~= Map::<Seq<char>, Seq<VectorView>>::empty());
        }
        assert(collections_of(result@) =~= transposed(whole, n));
    }
    result
}

/// Whether every list has `n` vectors.
pub fn lists_have_len(map: &NameMap<Vec<Vector>>, n: usize) -> (aligned: bool)
    ensures
        aligned == self::aligned(lists_of(map@), n as nat),
{
    let entries = map.entries();
    let ghost names = entry_names(entries@);
    let ghost whole = lists_of(map@);
    let mut j: usize = 0;
    while j < entries.len()
        invariant
            j <= entries.len(),
            lists(entries@, map@),
            whole == lists_of(map@),
            forall|p: int| 0 <= p < j ==> (#[trigger] entries@[p]).1@.len() == n,
        decreases entries.len() - j,
    {
        if entries[j].1.len() != n {
            proof {
                let name = entries@[j as int].0@;
                assert(map@.contains_key(name));
                assert(whole.contains_key(name) && whole[name].len() != n);
            }
            return false;
        }
        j += 1;
    }
    proof {
        assert forall|k: Seq<char>| whole.contains_key(k) implies (#[trigger] whole[k]).len()
            == n by {
            let p = names.index_of(k);
            assert(names[p] == entries@[p].0@);
            assert(entries@[p].1@.len() == n);
        }
    }
    true
}

/// Whether all lists have the same number of vectors.
pub fn has_uniform_lists(map: &NameMap<Vec<Vector>>) -> (same: bool)
    ensures
        same == uniform(lists_of(map@)),
{
    let entries = map.entries();
    if entries.len() == 0 {
        proof {
            lemma_lists_map_of(entries@, map@);
            assert(map@ =~= Map::<Seq<char>, Vec<Vector>>::empty());
        }
        return true;
    }
    let n = entries[0].1.len();
    let same = lists_have_len(map, n);
    proof {
        let whole = lists_of(map@);
        let first = entries@[0].0@;
        assert(map@.contains_key(first));
        assert(whole.contains_key(first) && whole[first].len() == n);
        if same {
            lemma_aligned_uniform(whole, n as nat);
        }
        if uniform(whole) {
            assert forall|k: Seq<char>| whole.contains_key(k) implies (#[trigger] whole[k]).len()
                == n by {
                assert(whole[k].len() == whole[first].len());
            }
        }
    }
    same
}

impl BatchVectorStruct {
    /// Whether the batch holds vectors for `num_records` points.
    pub fn fits(&self, num_records: usize) -> (aligned: bool)
        ensures
            aligned == self@.fits(num_records as nat),
    {
        match self {
            BatchVectorStruct::Single(_) => true,
            BatchVectorStruct::Multi(named_vectors) => lists_have_len(named_vectors, num_records),
        }
    }

    /// The collection of each point. A batch of unnamed vectors gives each
    /// its vector under the default name, in order; a batch by name gives
    /// point `i` the vector at position `i` of each list, and with no name at
    /// all gives `num_records` empty collections.
    pub fn into_all_vectors(self, num_records: usize) -> (result: Vec<NamedVectors<'static>>)
        requires
            self@.fits(num_records as nat),
        ensures
            collections_of(result@) == self@.all_vectors(num_records as nat),
    {
        match self {
            BatchVectorStruct::Single(vectors) => {
                let ghost list = vectors@;
                let mut result: Vec<NamedVectors<'static>> = Vec::new();
                for vector in it: vectors
                    invariant
                        it.seq() == list,
                        result.len() == it.index(),
                        forall|p: int|
                            0 <= p < result.len() ==> (#[trigger] result[p])@ == single_default(
                                list[p]@,
                            ),
                {
                    result.push(default_vector(vector));
                }
                proof {
                    assert(collections_of(result@) =~= singles(dense_of(list)));
                }
                result
            },
            BatchVectorStruct::Multi(named_vectors) => {
                let ghost whole = lists_of(named_vectors@);
                if named_vectors.is_empty() {
                    let mut result: Vec<NamedVectors<'static>> = Vec::new();
                    let mut i: usize = 0;
                    while i < num_records
                        invariant
                            i <= num_records,
                            result.len() == i,
                            forall|p: int|
                                0 <= p < i ==> (#[trigger] result[p])@ == Map::<
                                    Seq<char>,
                                    VectorView,
                                >::empty(),
                        decreases num_records - i,
                    {
                        result.push(NamedVectors::new());
                        i += 1;
                    }
                    proof {
                        assert forall|p: int| 0 <= p < num_records implies row(whole, p)
                            == Map::<Seq<char>, VectorView>::empty() by {
                            assert(row(whole, p) =~= Map::<Seq<char>, VectorView>::empty());
                        }
                        assert(collections_of(result@) =~= transposed(whole, num_records as nat));
                    }
                    result
                } else {
                    proof {
                        lemma_aligned_uniform(whole, num_records as nat);
                        if forall|k: Seq<char>| !named_vectors@.contains_key(k) {
                            assert(named_vectors@ =~= Map::<Seq<char>, Vec<Vector>>::empty());
                        }
                        let k = choose|k: Seq<char>| named_vectors@.contains_key(k);
                        assert(whole.contains_key(k));
                    }
                    transpose_map_into_named_vector(named_vectors)
                }
            },
        }
    }
}

impl Validate for BatchVectorStruct {
    open spec fn errors(&self) -> ValidationErrors {
        self@.errors()
    }

    fn validate(&self) -> (result: Result<(), ValidationErrors>)
        ensures
            result == self.errors().outcome(),
    {
        match self {
            BatchVectorStruct::Single(_) => Ok(()),
            BatchVectorStruct::Multi(v) => {
                let entries = v.entries();
                let ghost listed = entries@;
                let mut found = ValidationErrors::new();
                let mut j: usize = 0;
                proof {
                    lemma_lists_map_of(listed, v@);
                    lemma_map_of_none(listed);
                    lemma_same_findings(found, errors_of_lists(lists_of(map_of(listed.take(0)))));
                }
                while j < entries.len()
                    invariant
                        j <= entries.len(),
                        entries@ == listed,
                        entry_names(listed).no_duplicates(),
                        found == errors_of_lists(lists_of(map_of(listed.take(j as int)))),
                    decreases entries.len() - j,
                {
                    let next = match validate_iter(entries[j].1.as_slice()) {
                        Ok(_) => ValidationErrors::new(),
                        Err(e) => e,
                    };
                    proof {
                        let before = map_of(listed.take(j as int));
                        lemma_map_of_next(listed, j as int);
                        lemma_errors_of_lists_insert(
                            lists_of(before),
                            listed[j as int].0@,
                            listed[j as int].1@,
                        );
                        assert(lists_of(before.insert(listed[j as int].0@, listed[j as int].1))
                            =~= lists_of(before).insert(
                            listed[j as int].0@,
                            vectors_of(listed[j as int].1@),
                        ));
                    }
                    found = found.merge(next);
                    j += 1;
                }
                proof {
                    assert(listed.take(listed.len() as int) =~= listed);
                }
                found.into_result()
            },
        }
    }
}

/// Lists by name that hold one vector for each of `k` points give `k`
/// collections; each has every name of the lists and no other, and holds
/// under a name the vector at its own position of that name's list.
pub proof fn lemma_transposed(m: Map<Seq<char>, Seq<VectorView>>, k: nat)
    requires
        aligned(m, k),
    ensures
        transposed(m, k).len() == k,
        forall|i: int| 0 <= i < k ==> (#[trigger] transposed(m, k)[i]).dom() == m.dom(),
        forall|i: int, name: Seq<char>|
            0 <= i < k && m.contains_key(name) ==> 0 <= i < m[name].len() && (
            #[trigger] transposed(m, k)[i][name]) == m[name][i],
{
    assert forall|i: int| 0 <= i < k implies (#[trigger] transposed(m, k)[i]).dom() == m.dom() by {
        assert(row(m, i).dom() =~= m.dom());
    }
}

/// No list at all gives `k` empty collections.
pub proof fn lemma_transposed_empty(k: nat)
    ensures
        aligned(Map::<Seq<char>, Seq<VectorView>>::empty(), k),
        transposed(Map::<Seq<char>, Seq<VectorView>>::empty(), k).len() == k,
        forall|i: int|
            0 <= i < k ==> (#[trigger] transposed(Map::<Seq<char>, Seq<VectorView>>::empty(), k)[i])
                == Map::<Seq<char>, VectorView>::empty(),
{
    let none = Map::<Seq<char>, Seq<VectorView>>::empty();
    assert forall|i: int| 0 <= i < k implies (#[trigger] transposed(none, k)[i]) == Map::<
        Seq<char>,
        VectorView,
    >::empty() by {
        assert(row(none, i) =~= Map::<Seq<char>, VectorView>::empty());
    }
}

/// A batch of unnamed vectors gives one collection per vector, in order,
/// each holding its vector under the default name.
pub proof fn lemma_singles(list: Seq<Seq<VectorElementType>>)
    ensures
        singles(list).len() == list.len(),
        forall|i: int|
            0 <= i < list.len() ==> (#[trigger] singles(list)[i]) == single_default(list[i]),
{
}

} // verus!
