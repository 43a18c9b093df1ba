//! The kinds of query that are evaluated against stored vectors.

use vstd::prelude::*;
use vstd::array::array_as_slice;
use vstd::slice::slice_to_vec;
use vstd::std_specs::convert::FromSpecImpl;
use crate::named_vector_struct::Named;
use crate::sparse_vector::SparseVector;
use crate::validation::Validate;
use crate::validation::ValidationErrors;
use crate::vectors::DEFAULT_VECTOR_NAME;
use crate::vectors::Vector;
use crate::vectors::VectorElementType;
use crate::vectors::VectorRef;
use crate::vectors::VectorType;
use crate::vectors::VectorView;
use crate::vectors::default_name;
use crate::vectors::lemma_default_name;

verus! {

/// Examples to come close to and examples to stay away from.
#[derive(Debug, Clone)]
pub struct RecoQuery<T> {
    pub positives: Vec<T>,
    pub negatives: Vec<T>,
}

/// One example to prefer over another.
#[derive(Debug, Clone)]
pub struct ContextPair<T> {
    pub positive: T,
    pub negative: T,
}

/// Pairs of examples that bound the region to search.
#[derive(Debug, Clone)]
pub struct ContextQuery<T> {
    pub pairs: Vec<ContextPair<T>>,
}

/// A target to come close to inside the region that pairs of examples bound.
#[derive(Debug, Clone)]
pub struct DiscoveryQuery<T> {
    pub target: T,
    pub pairs: Vec<ContextPair<T>>,
}

/// A query together with the vector field it targets.
#[derive(Debug, Clone)]
pub struct NamedQuery<TQuery> {
    /// The query.
    pub query: TQuery,
    /// Name of the targeted field; the default field where there is none.
    pub using: Option<String>,
}

impl<T> Named for NamedQuery<T> {
    open spec fn name(&self) -> Seq<char> {
        match self.using {
            Some(name) => name@,
            None => default_name(),
        }
    }

    fn get_name(&self) -> (name: &str)
        ensures
            name@ == self.name(),
    {
        match &self.using {
            Some(name) => name.as_str(),
            None => {
                proof {
                    lemma_default_name();
                }
                DEFAULT_VECTOR_NAME
            },
        }
    }
}

impl<T: Validate> Validate for NamedQuery<T> {
    open spec fn errors(&self) -> ValidationErrors {
        self.query.errors()
    }

    fn validate(&self) -> (result: Result<(), ValidationErrors>)
        ensures
            result == self.errors().outcome(),
    {
        self.query.validate()
    }
}

/// The comparison that a search performs against stored vectors.
#[derive(Debug, Clone)]
pub enum QueryVector {
    Nearest(Vector),
    Recommend(RecoQuery<Vector>),
    Discovery(DiscoveryQuery<Vector>),
    Context(ContextQuery<Vector>),
}

/// Whether `query` asks for the nearest neighbours of a vector of the given
/// content.
pub open spec fn is_nearest(query: QueryVector, content: VectorView) -> bool {
    match query {
        QueryVector::Nearest(vector) => vector@ == content,
        _ => false,
    }
}

impl From<VectorType> for QueryVector {
    fn from(vec: VectorType) -> (query: Self)
        ensures
            query == QueryVector::Nearest(Vector::Dense(vec)),
    {
        QueryVector::Nearest(Vector::Dense(vec))
    }
}

impl FromSpecImpl<VectorType> for QueryVector {
    open spec fn obeys_from_spec() -> bool {
        true
    }

    open spec fn from_spec(vec: VectorType) -> Self {
        QueryVector::Nearest(Vector::Dense(vec))
    }
}

impl<'a> From<&'a [VectorElementType]> for QueryVector {
    fn from(vec: &'a [VectorElementType]) -> (query: Self)
        ensures
            is_nearest(query, VectorView::Dense(vec@)),
    {
        QueryVector::Nearest(Vector::Dense(slice_to_vec(vec)))
    }
}

/// The result is a copy with a storage of its own: it has the content that
/// `from_spec` has, and need not be that very value.
impl<'a> FromSpecImpl<&'a [VectorElementType]> for QueryVector {
    open spec fn obeys_from_spec() -> bool {
        false
    }

    open spec fn from_spec(vec: &'a [VectorElementType]) -> Self {
        choose|query: QueryVector| is_nearest(query, VectorView::Dense(vec@))
    }
}

impl<const N: usize> From<[VectorElementType; N]> for QueryVector {
    fn from(vec: [VectorElementType; N]) -> (query: Self)
        ensures
            is_nearest(query, VectorView::Dense(vec@)),
    {
        let borrowed: VectorRef<'_> = VectorRef::Dense(array_as_slice(&vec));
        QueryVector::Nearest(borrowed.to_owned())
    }
}

/// The result is a copy with a storage of its own: it has the content that
/// `from_spec` has, and need not be that very value.
impl<const N: usize> FromSpecImpl<[VectorElementType; N]> for QueryVector {
    open spec fn obeys_from_spec() -> bool {
        false
    }

    open spec fn from_spec(vec: [VectorElementType; N]) -> Self {
        choose|query: QueryVector| is_nearest(query, VectorView::Dense(vec@))
    }
}

impl<'a> From<VectorRef<'a>> for QueryVector {
    fn from(vec: VectorRef<'a>) -> (query: Self)
        ensures
            is_nearest(query, vec@),
    {
        QueryVector::Nearest(vec.to_vec())
    }
}

/// The result is a copy with a storage of its own: it has the content that
/// `from_spec` has, and need not be that very value.
impl<'a> FromSpecImpl<VectorRef<'a>> for QueryVector {
    open spec fn obeys_from_spec() -> bool {
        false
    }

    open spec fn from_spec(vec: VectorRef<'a>) -> Self {
        choose|query: QueryVector| is_nearest(query, vec@)
    }
}

impl From<Vector> for QueryVector {
    fn from(vec: Vector) -> (query: Self)
        ensures
            query == QueryVector::Nearest(vec),
    {
        QueryVector::Nearest(vec)
    }
}

impl FromSpecImpl<Vector> for QueryVector {
    open spec fn obeys_from_spec() -> bool {
        true
    }

    open spec fn from_spec(vec: Vector) -> Self {
        QueryVector::Nearest(vec)
    }
}

impl From<SparseVector> for QueryVector {
    fn from(vec: SparseVector) -> (query: Self)
        ensures
            query == QueryVector::Nearest(Vector::Sparse(vec)),
    {
        QueryVector::Nearest(Vector::Sparse(vec))
    }
}

impl FromSpecImpl<SparseVector> for QueryVector {
    open spec fn obeys_from_spec() -> bool {
        true
    }

    open spec fn from_spec(vec: SparseVector) -> Self {
        QueryVector::Nearest(Vector::Sparse(vec))
    }
}

} // verus!
