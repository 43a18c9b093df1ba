//! The vectors of one point as they are exchanged, and the way to and from
//! the collection by name.

use vstd::prelude::*;
use vstd::slice::slice_to_vec;
use vstd::std_specs::cmp::PartialEqSpecImpl;
use vstd::std_specs::convert::FromSpecImpl;
use crate::equality::words_equal;
use crate::name_map::NameMap;
use crate::name_map::entry_names;
use crate::name_map::lists;
use crate::operation_error::OperationError;
use crate::named_vectors::NamedVectors;
use crate::named_vectors::vector_views;
use crate::validation::Rule;
use crate::validation::Validate;
use crate::validation::ValidationErrors;
use crate::validation::errors_of_all;
use crate::validation::lemma_same_findings;
use crate::validation::some_item_breaks;
use crate::validation::validate_iter;
use crate::vectors::DEFAULT_VECTOR_NAME;
use crate::vectors::Vector;
use crate::vectors::VectorElementType;
use crate::vectors::VectorRef;
use crate::vectors::VectorType;
use crate::vectors::VectorView;
use crate::vectors::default_name;
use crate::vectors::lemma_default_name;

verus! {

/// The collection whose only vector is the dense `vector`, under the default
/// name.
pub open spec fn single_default(vector: Seq<VectorElementType>) -> Map<Seq<char>, VectorView> {
    Map::<Seq<char>, VectorView>::empty().insert(default_name(), VectorView::Dense(vector))
}

/// Whether every vector of a collection has no explicit entry.
pub open spec fn all_empty(m: Map<Seq<char>, VectorView>) -> bool {
    forall|k: Seq<char>| m.contains_key(k) ==> (#[trigger] m[k]).is_empty()
}

/// Whether some vector of a collection breaks `rule`.
pub open spec fn some_vector_breaks(m: Map<Seq<char>, VectorView>, rule: Rule) -> bool {
    exists|k: Seq<char>| m.contains_key(k) && (#[trigger] m[k]).errors().has(rule)
}

/// The rules broken by at least one vector of a collection.
pub open spec fn errors_of_vectors(m: Map<Seq<char>, VectorView>) -> ValidationErrors {
    ValidationErrors {
        values_length: some_vector_breaks(m, Rule::ValuesLength),
        indices_order: some_vector_breaks(m, Rule::IndicesOrder),
    }
}

/// A collection that holds `vec` under the default name.
pub fn default_vector(vec: VectorType) -> (vectors: NamedVectors<'static>)
    ensures
        vectors@ == single_default(vec@),
{
    proof {
        lemma_default_name();
    }
    let mut vectors = NamedVectors::new();
    vectors.insert(DEFAULT_VECTOR_NAME.to_owned(), Vector::Dense(vec));
    vectors
}

/// A collection that borrows `vec` under the default name.
pub fn only_default_vector(vec: &[VectorElementType]) -> (vectors: NamedVectors<'_>)
    ensures
        vectors@ == single_default(vec@),
{
    proof {
        lemma_default_name();
    }
    NamedVectors::from_ref(DEFAULT_VECTOR_NAME, VectorRef::Dense(vec))
}

/// The vectors of one point as they are exchanged: one unnamed dense vector,
/// or vectors by name.
#[derive(Debug)]
pub enum VectorStruct {
    Single(VectorType),
    Multi(NameMap<Vector>),
}

/// The mathematical content of a `VectorStruct`.
pub enum VectorStructView {
    Single(Seq<VectorElementType>),
    Multi(Map<Seq<char>, VectorView>),
}

impl VectorStructView {
    /// Whether no vector has an explicit entry.
    pub open spec fn is_empty(self) -> bool {
        match self {
            VectorStructView::Single(v) => v.len() == 0,
            VectorStructView::Multi(m) => all_empty(m),
        }
    }

    /// The rules broken by at least one of the vectors.
    pub open spec fn errors(self) -> ValidationErrors {
        match self {
            VectorStructView::Single(_) => ValidationErrors::none(),
            VectorStructView::Multi(m) => errors_of_vectors(m),
        }
    }

    /// The vector of the given name. The unnamed vector has the default name
    /// and no other.
    pub open spec fn get(self, name: Seq<char>) -> Option<VectorView> {
        match self {
            VectorStructView::Single(v) => if name == default_name() {
                Some(VectorView::Dense(v))
            } else {
                None
            },
            VectorStructView::Multi(m) => if m.contains_key(name) {
                Some(m[name])
            } else {
                None
            },
        }
    }

    /// The vectors as a collection by name; the unnamed vector gets the
    /// default name.
    pub open spec fn all_vectors(self) -> Map<Seq<char>, VectorView> {
        match self {
            VectorStructView::Single(v) => single_default(v),
            VectorStructView::Multi(m) => m,
        }
    }

    /// Whether a collection is exchanged as one unnamed vector: it has
    /// exactly one vector, under the default name.
    pub open spec fn collapses(m: Map<Seq<char>, VectorView>) -> bool {
        m.len() == 1 && m.contains_key(default_name())
    }

    /// Whether a collection has an exchanged form: where it is exchanged as
    /// one unnamed vector, that vector is dense.
    pub open spec fn exchangeable(m: Map<Seq<char>, VectorView>) -> bool {
        Self::collapses(m) ==> m[default_name()] is Dense
    }

    /// The exchanged form of a collection.
    pub open spec fn from_named(m: Map<Seq<char>, VectorView>) -> VectorStructView {
        if Self::collapses(m) {
            VectorStructView::Single(m[default_name()]->Dense_0)
        } else {
            VectorStructView::Multi(m)
        }
    }
}

impl View for VectorStruct {
    type V = VectorStructView;

    open spec fn view(&self) -> VectorStructView {
        match self {
            VectorStruct::Single(v) => VectorStructView::Single(v@),
            VectorStruct::Multi(m) => VectorStructView::Multi(vector_views(m@)),
        }
    }
}

impl Clone for VectorStruct {
    fn clone(&self) -> (copy: Self)
        ensures
            copy@ == self@,
    {
        match self {
            VectorStruct::Single(v) => VectorStruct::Single(v.clone()),
            VectorStruct::Multi(m) => {
                let copy = m.clone();
                proof {
                    assert(vector_views(copy@) =~= vector_views(m@));
                }
                VectorStruct::Multi(copy)
            },
        }
    }
}

impl PartialEq for VectorStruct {
    fn eq(&self, other: &Self) -> (same: bool)
        ensures
            same == (self@ == other@),
    {
        match (self, other) {
            (VectorStruct::Single(a), VectorStruct::Single(b)) => words_equal(
                a.as_slice(),
                b.as_slice(),
            ),
            (VectorStruct::Multi(a), VectorStruct::Multi(b)) => NamedVectors::from_map_ref(a)
                == NamedVectors::from_map_ref(b),
            _ => false,
        }
    }
}

/// Two values are equal when both are one unnamed vector of the same
/// content, or both are vectors by name, of the same content under the same
/// names.
impl PartialEqSpecImpl for VectorStruct {
    open spec fn obeys_eq_spec() -> bool {
        true
    }

    open spec fn eq_spec(&self, other: &Self) -> bool {
        self@ == other@
    }
}

/// The findings over a list of entries are the findings over the collection
/// that it lists.
pub proof fn lemma_errors_of_listed(entries: Seq<(String, Vector)>, m: Map<Seq<char>, Vector>)
    requires
        lists(entries, m),
    ensures
        errors_of_all(entries) == errors_of_vectors(vector_views(m)),
{
    let names = entry_names(entries);
    let views = vector_views(m);
    assert forall|rule: Rule|
        some_item_breaks(entries, rule) == some_vector_breaks(views, rule) by {
        if some_item_breaks(entries, rule) {
            let i = choose|i: int|
                0 <= i < entries.len() && (#[trigger] entries[i]).errors().has(rule);
            assert(m.contains_key(entries[i].0@));
            assert(views[entries[i].0@].errors().has(rule));
        }
        if some_vector_breaks(views, rule) {
            let k = choose|k: Seq<char>|
                views.contains_key(k) && (#[trigger] views[k]).errors().has(rule);
            let i = names.index_of(k);
            assert(names[i] == entries[i].0@);
            assert(entries[i].errors().has(rule));
        }
    }
    lemma_same_findings(errors_of_all(entries), errors_of_vectors(views));
}

impl VectorStruct {
    /// Whether no vector has an explicit entry.
    pub fn is_empty(&self) -> (empty: bool)
        ensures
            empty == self@.is_empty(),
    {
        match self {
            VectorStruct::Single(vector) => vector.len() == 0,
            VectorStruct::Multi(vectors) => {
                let entries = vectors.entries();
                let ghost names = entry_names(entries@);
                let ghost views = vector_views(vectors@);
                let mut i: usize = 0;
                while i < entries.len()
                    invariant
                        i <= entries.len(),
                        lists(entries@, vectors@),
                        views == vector_views(vectors@),
                        self@ == VectorStructView::Multi(views),
                        forall|j: int| 0 <= j < i ==> (#[trigger] entries@[j]).1@.is_empty(),
                    decreases entries.len() - i,
                {
                    if entries[i].1.to_vec_ref().len() != 0 {
                        proof {
                            let name = entries@[i as int].0@;
                            assert(vectors@.contains_key(name));
                            assert(views.contains_key(name) && !views[name].is_empty());
                        }
                        return false;
                    }
                    i += 1;
                }
                proof {
                    assert forall|k: Seq<char>| views.contains_key(k) implies (
                    #[trigger] views[k]).is_empty() by {
                        let j = names.index_of(k);
                        assert(names[j] == entries@[j].0@);
                        assert(entries@[j].1@.is_empty());
                    }
                }
                true
            },
        }
    }

    /// The vector of the given name. The unnamed vector has the default name
    /// and no other; a name that is absent is a miss.
    pub fn get(&self, name: &str) -> (vector: Option<VectorRef<'_>>)
        ensures
            match vector {
                Some(v) => self@.get(name@) == Some(v@),
                None => self@.get(name@) is None,
            },
    {
        match self {
            VectorStruct::Single(v) => {
                proof {
                    lemma_default_name();
                    assert(name@.len() == 0 <==> name@ =~= default_name());
                }
                if name.is_empty() {
                    Some(VectorRef::from(v))
                } else {
                    None
                }
            },
            VectorStruct::Multi(v) => match v.get(name) {
                Some(vector) => Some(VectorRef::from(vector)),
                None => None,
            },
        }
    }

    /// The exchanged form of a collection: one unnamed vector where the
    /// collection has exactly one vector, under the default name, else the
    /// vectors by name. The lone default vector must be dense, as the unnamed
    /// form holds no other.
    pub fn from_named_vectors(v: NamedVectors<'_>) -> (vectors: VectorStruct)
        requires
            VectorStructView::exchangeable(v@),
        ensures
            vectors@ == VectorStructView::from_named(v@),
    {
        proof {
            lemma_default_name();
        }
        if v.len() == 1 && v.contains_key(DEFAULT_VECTOR_NAME) {
            let lone: VectorRef<'_> = v.get(DEFAULT_VECTOR_NAME).unwrap();
            let dense: Result<&[VectorElementType], OperationError> = lone.try_into();
            let vector: &[VectorElementType] = dense.unwrap();
            VectorStruct::Single(slice_to_vec(vector))
        } else {
            VectorStruct::Multi(v.into_owned_map())
        }
    }

    /// The exchanged form of a collection, as `from_named_vectors` gives it;
    /// refused with the mismatch of variants where the lone default vector
    /// is sparse.
    pub fn try_from_named_vectors(v: NamedVectors<'_>) -> (result: Result<
        VectorStruct,
        OperationError,
    >)
        ensures
            match result {
                Ok(vectors) => VectorStructView::exchangeable(v@) && vectors@
                    == VectorStructView::from_named(v@),
                Err(e) => !VectorStructView::exchangeable(v@) && e == OperationError::WrongSparse,
            },
    {
        proof {
            lemma_default_name();
        }
        if v.len() == 1 {
            if let Some(VectorRef::Sparse(_)) = v.get(DEFAULT_VECTOR_NAME) {
                return Err(OperationError::WrongSparse);
            }
        }
        Ok(VectorStruct::from_named_vectors(v))
    }

    /// The vectors as a collection by name; the unnamed vector gets the
    /// default name.
    pub fn into_all_vectors(self) -> (vectors: NamedVectors<'static>)
        ensures
            vectors@ == self@.all_vectors(),
    {
        match self {
            VectorStruct::Single(v) => default_vector(v),
            VectorStruct::Multi(v) => NamedVectors::from_map(v),
        }
    }
}

impl Validate for VectorStruct {
    open spec fn errors(&self) -> ValidationErrors {
        self@.errors()
    }

    fn validate(&self) -> (result: Result<(), ValidationErrors>)
        ensures
            result == self.errors().outcome(),
    {
        match self {
            VectorStruct::Single(_) => Ok(()),
            VectorStruct::Multi(v) => {
                let entries = v.entries();
                proof {
                    lemma_errors_of_listed(entries@, v@);
                }
                validate_iter(entries)
            },
        }
    }
}

impl From<VectorType> for VectorStruct {
    fn from(v: VectorType) -> (vectors: Self)
        ensures
            vectors == VectorStruct::Single(v),
    {
        VectorStruct::Single(v)
    }
}

impl FromSpecImpl<VectorType> for VectorStruct {
    open spec fn obeys_from_spec() -> bool {
        true
    }

    open spec fn from_spec(v: VectorType) -> Self {
        VectorStruct::Single(v)
    }
}

impl From<&[VectorElementType]> for VectorStruct {
    fn from(v: &[VectorElementType]) -> (vectors: Self)
        ensures
            vectors@ == VectorStructView::Single(v@),
    {
        VectorStruct::Single(slice_to_vec(v))
    }
}

/// The result is a copy with a storage of its own: it has the content that
/// `from_spec` has, and need not be that very value.
impl FromSpecImpl<&[VectorElementType]> for VectorStruct {
    open spec fn obeys_from_spec() -> bool {
        false
    }

    open spec fn from_spec(v: &[VectorElementType]) -> Self {
        choose|vectors: VectorStruct| vectors@ == VectorStructView::Single(v@)
    }
}

/// A collection that is exactly one dense vector under the default name is
/// exchanged as one unnamed vector, and expanding that again gives the same
/// collection.
pub proof fn lemma_single_round_trip(m: Map<Seq<char>, VectorView>)
    requires
        m.dom().finite(),
        m.len() == 1,
        m.contains_key(default_name()),
        m[default_name()] is Dense,
    ensures
        VectorStructView::from_named(m) == VectorStructView::Single(m[default_name()]->Dense_0),
        VectorStructView::from_named(m).all_vectors() == m,
{
    Set::lemma_is_singleton(m.dom());
    assert forall|k: Seq<char>| m.contains_key(k) implies k == default_name() by {
        assert(m.dom().contains(k) && m.dom().contains(default_name()));
    }
    assert(single_default(m[default_name()]->Dense_0) =~= m);
}

/// A collection with a vector under another name than the default one, or
/// with any other number of vectors than one, is exchanged by name, and
/// expanding that again gives the same collection.
pub proof fn lemma_multi_round_trip(m: Map<Seq<char>, VectorView>)
    requires
        !VectorStructView::collapses(m),
    ensures
        VectorStructView::from_named(m) == VectorStructView::Multi(m),
        VectorStructView::from_named(m).all_vectors() == m,
{
}

/// One unnamed vector expands to a collection that is exchanged as that
/// vector again.
pub proof fn lemma_single_expands_and_collapses(v: Seq<VectorElementType>)
    ensures
        VectorStructView::collapses(VectorStructView::Single(v).all_vectors()),
        VectorStructView::from_named(VectorStructView::Single(v).all_vectors())
            == VectorStructView::Single(v),
{
    let m = single_default(v);
    assert(m.dom() =~= set![default_name()]);
}

/// Vectors by name of which none has an explicit entry are empty as a
/// whole, and one unnamed vector is empty exactly when it has no component.
pub proof fn lemma_emptiness(m: Map<Seq<char>, VectorView>, v: Seq<VectorElementType>)
    ensures
        (forall|k: Seq<char>| m.contains_key(k) ==> (#[trigger] m[k]).len() == 0)
            ==> VectorStructView::Multi(m).is_empty(),
        (exists|k: Seq<char>| m.contains_key(k) && (#[trigger] m[k]).len() > 0)
            ==> !VectorStructView::Multi(m).is_empty(),
        VectorStructView::Single(v).is_empty() == VectorView::Dense(v).is_empty(),
{
}

} // verus!
