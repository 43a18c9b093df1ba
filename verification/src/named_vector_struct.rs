//! One query vector together with the name of the field it targets.

use vstd::prelude::*;
use vstd::std_specs::convert::FromSpecImpl;
use crate::sparse_vector::SparseVector;
use crate::sparse_vector::SparseVectorView;
use crate::validation::Validate;
use crate::validation::ValidationErrors;
use crate::vectors::DEFAULT_VECTOR_NAME;
use crate::vectors::Vector;
use crate::vectors::VectorElementType;
use crate::vectors::VectorRef;
use crate::vectors::VectorType;
use crate::vectors::VectorView;
use crate::vectors::as_slice;
use crate::vectors::default_name;
use crate::vectors::lemma_default_name;

verus! {

/// A dense vector and the name of the field it belongs to.
#[derive(Debug)]
pub struct NamedVector {
    /// Name of the vector field.
    pub name: String,
    /// The vector.
    pub vector: VectorType,
}

/// A sparse vector and the name of the field it belongs to.
#[derive(Debug)]
pub struct NamedSparseVector {
    /// Name of the vector field.
    pub name: String,
    /// The vector.
    pub vector: SparseVector,
}

impl Clone for NamedVector {
    fn clone(&self) -> (copy: Self)
        ensures
            copy.name@ == self.name@,
            copy.vector@ == self.vector@,
    {
        NamedVector { name: self.name.clone(), vector: self.vector.clone() }
    }
}

impl Clone for NamedSparseVector {
    fn clone(&self) -> (copy: Self)
        ensures
            copy.name@ == self.name@,
            copy.vector@ == self.vector@,
    {
        NamedSparseVector { name: self.name.clone(), vector: self.vector.clone() }
    }
}

impl Validate for NamedSparseVector {
    open spec fn errors(&self) -> ValidationErrors {
        self.vector@.errors()
    }

    fn validate(&self) -> (result: Result<(), ValidationErrors>)
        ensures
            result == self.errors().outcome(),
    {
        self.vector.validate()
    }
}

/// One query vector with the field it targets: an unnamed dense vector, a
/// named dense vector or a named sparse vector.
#[derive(Debug)]
pub enum NamedVectorStruct {
    Default(VectorType),
    Named(NamedVector),
    Sparse(NamedSparseVector),
}

/// The mathematical content of a `NamedVectorStruct`.
pub enum NamedVectorStructView {
    Default(Seq<VectorElementType>),
    Named { name: Seq<char>, vector: Seq<VectorElementType> },
    Sparse { name: Seq<char>, pairs: SparseVectorView },
}

impl NamedVectorStructView {
    /// The name of the targeted field: the default name for the unnamed
    /// form, else the name that is carried.
    pub open spec fn name(self) -> Seq<char> {
        match self {
            NamedVectorStructView::Default(_) => default_name(),
            NamedVectorStructView::Named { name, .. } => name,
            NamedVectorStructView::Sparse { name, .. } => name,
        }
    }

    /// The vector.
    pub open spec fn vector(self) -> VectorView {
        match self {
            NamedVectorStructView::Default(v) => VectorView::Dense(v),
            NamedVectorStructView::Named { vector, .. } => VectorView::Dense(vector),
            NamedVectorStructView::Sparse { pairs, .. } => VectorView::Sparse(pairs),
        }
    }

    /// The rules that the vector breaks. The dense forms break none.
    pub open spec fn errors(self) -> ValidationErrors {
        self.vector().errors()
    }

    /// The named form of a vector.
    pub open spec fn from_vector(vector: VectorView, name: Seq<char>) -> Self {
        match vector {
            VectorView::Dense(v) => NamedVectorStructView::Named { name, vector: v },
            VectorView::Sparse(v) => NamedVectorStructView::Sparse { name, pairs: v },
        }
    }
}

impl View for NamedVectorStruct {
    type V = NamedVectorStructView;

    open spec fn view(&self) -> NamedVectorStructView {
        match self {
            NamedVectorStruct::Default(v) => NamedVectorStructView::Default(v@),
            NamedVectorStruct::Named(v) => NamedVectorStructView::Named {
                name: v.name@,
                vector: v.vector@,
            },
            NamedVectorStruct::Sparse(v) => NamedVectorStructView::Sparse {
                name: v.name@,
                pairs: v.vector@,
            },
        }
    }
}

impl Clone for NamedVectorStruct {
    fn clone(&self) -> (copy: Self)
        ensures
            copy@ == self@,
    {
        match self {
            NamedVectorStruct::Default(v) => NamedVectorStruct::Default(v.clone()),
            NamedVectorStruct::Named(v) => NamedVectorStruct::Named(v.clone()),
            NamedVectorStruct::Sparse(v) => NamedVectorStruct::Sparse(v.clone()),
        }
    }
}

impl From<VectorType> for NamedVectorStruct {
    fn from(v: VectorType) -> (named: Self)
        ensures
            named == NamedVectorStruct::Default(v),
    {
        NamedVectorStruct::Default(v)
    }
}

impl FromSpecImpl<VectorType> for NamedVectorStruct {
    open spec fn obeys_from_spec() -> bool {
        true
    }

    open spec fn from_spec(v: VectorType) -> Self {
        NamedVectorStruct::Default(v)
    }
}

impl From<NamedVector> for NamedVectorStruct {
    fn from(v: NamedVector) -> (named: Self)
        ensures
            named == NamedVectorStruct::Named(v),
    {
        NamedVectorStruct::Named(v)
    }
}

impl FromSpecImpl<NamedVector> for NamedVectorStruct {
    open spec fn obeys_from_spec() -> bool {
        true
    }

    open spec fn from_spec(v: NamedVector) -> Self {
        NamedVectorStruct::Named(v)
    }
}

impl From<NamedSparseVector> for NamedVectorStruct {
    fn from(v: NamedSparseVector) -> (named: Self)
        ensures
            named == NamedVectorStruct::Sparse(v),
    {
        NamedVectorStruct::Sparse(v)
    }
}

impl FromSpecImpl<NamedSparseVector> for NamedVectorStruct {
    open spec fn obeys_from_spec() -> bool {
        true
    }

    open spec fn from_spec(v: NamedSparseVector) -> Self {
        NamedVectorStruct::Sparse(v)
    }
}

impl From<NamedVectorStruct> for Vector {
    fn from(value: NamedVectorStruct) -> (vector: Self)
        ensures
            vector@ == value@.vector(),
    {
        match value {
            NamedVectorStruct::Default(v) => Vector::Dense(v),
            NamedVectorStruct::Named(v) => Vector::Dense(v.vector),
            NamedVectorStruct::Sparse(v) => Vector::Sparse(v.vector),
        }
    }
}

impl FromSpecImpl<NamedVectorStruct> for Vector {
    open spec fn obeys_from_spec() -> bool {
        true
    }

    open spec fn from_spec(value: NamedVectorStruct) -> Self {
        match value {
            NamedVectorStruct::Default(v) => Vector::Dense(v),
            NamedVectorStruct::Named(v) => Vector::Dense(v.vector),
            NamedVectorStruct::Sparse(v) => Vector::Sparse(v.vector),
        }
    }
}

/// A value that targets a vector field by name.
pub trait Named {
    /// The name of the targeted field.
    spec fn name(&self) -> Seq<char>;

    /// The name of the targeted field.
    fn get_name(&self) -> (name: &str)
        ensures
            name@ == self.name(),
    ;
}

impl Named for NamedVectorStruct {
    open spec fn name(&self) -> Seq<char> {
        self@.name()
    }

    fn get_name(&self) -> (name: &str)
        ensures
            name@ == self.name(),
    {
        match self {
            NamedVectorStruct::Default(_) => {
                proof {
                    lemma_default_name();
                }
                DEFAULT_VECTOR_NAME
            },
            NamedVectorStruct::Named(v) => v.name.as_str(),
            NamedVectorStruct::Sparse(v) => v.name.as_str(),
        }
    }
}

impl NamedVectorStruct {
    /// The named form of `vector`: dense or sparse as the vector is.
    pub fn new_from_vector(vector: Vector, name: String) -> (named: Self)
        ensures
            named@ == NamedVectorStructView::from_vector(vector@, name@),
            named == (match vector {
                Vector::Dense(v) => NamedVectorStruct::Named(NamedVector { name, vector: v }),
                Vector::Sparse(v) => NamedVectorStruct::Sparse(
                    NamedSparseVector { name, vector: v },
                ),
            }),
    {
        match vector {
            Vector::Dense(vector) => NamedVectorStruct::Named(NamedVector { name, vector }),
            Vector::Sparse(vector) => NamedVectorStruct::Sparse(
                NamedSparseVector { name, vector },
            ),
        }
    }

    /// The vector, borrowed.
    pub fn get_vector(&self) -> (vector: VectorRef<'_>)
        ensures
            vector@ == self@.vector(),
    {
        match self {
            NamedVectorStruct::Default(v) => VectorRef::Dense(as_slice(v)),
            NamedVectorStruct::Named(v) => VectorRef::Dense(as_slice(&v.vector)),
            NamedVectorStruct::Sparse(v) => VectorRef::Sparse(&v.vector),
        }
    }

    /// The vector itself, without its name.
    pub fn to_vector(self) -> (vector: Vector)
        ensures
            vector@ == self@.vector(),
            vector == (match self {
                NamedVectorStruct::Default(v) => Vector::Dense(v),
                NamedVectorStruct::Named(v) => Vector::Dense(v.vector),
                NamedVectorStruct::Sparse(v) => Vector::Sparse(v.vector),
            }),
    {
        match self {
            NamedVectorStruct::Default(v) => Vector::Dense(v),
            NamedVectorStruct::Named(v) => Vector::Dense(v.vector),
            NamedVectorStruct::Sparse(v) => Vector::Sparse(v.vector),
        }
    }
}

impl Validate for NamedVectorStruct {
    open spec fn errors(&self) -> ValidationErrors {
        self@.errors()
    }

    fn validate(&self) -> (result: Result<(), ValidationErrors>)
        ensures
            result == self.errors().outcome(),
    {
        match self {
            NamedVectorStruct::Default(_) => Ok(()),
            NamedVectorStruct::Named(_) => Ok(()),
            NamedVectorStruct::Sparse(v) => v.validate(),
        }
    }
}

/// The unnamed form targets the default name, which has no characters; the
/// named forms target the name they carry, whatever it is.
pub proof fn lemma_names(
    dense: Seq<VectorElementType>,
    sparse: SparseVectorView,
    name: Seq<char>,
)
    ensures
        NamedVectorStructView::Default(dense).name() == default_name(),
        default_name().len() == 0,
        (NamedVectorStructView::Named { name, vector: dense }).name() == name,
        (NamedVectorStructView::Sparse { name, pairs: sparse }).name() == name,
{
}

} // verus!
