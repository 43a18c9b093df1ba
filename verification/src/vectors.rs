//! One vector, dense or sparse, owned or borrowed, and the narrowing of a
//! vector to one of its two facets.

use vstd::prelude::*;
use vstd::slice::slice_to_vec;
use vstd::std_specs::cmp::PartialEqSpecImpl;
use vstd::std_specs::convert::FromSpecImpl;
use vstd::std_specs::convert::TryFromSpec;
use vstd::std_specs::convert::TryFromSpecImpl;
use vstd::std_specs::convert::TryIntoSpec;
use vstd::std_specs::convert::TryIntoSpecImpl;
use crate::equality::words_equal;
use crate::operation_error::OperationError;
use crate::sparse_vector::SparseVector;
use crate::sparse_vector::SparseVectorView;
use crate::validation::Validate;
use crate::validation::ValidationErrors;

verus! {

/// One component of a dense vector: the bit pattern of a single-precision
/// number, as `f32::to_bits` gives it.
pub type VectorElementType = u32;

/// The name under which the single unnamed vector of a point is stored.
pub const DEFAULT_VECTOR_NAME: &'static str = "";

/// A dense vector: one component per dimension.
pub type VectorType = Vec<VectorElementType>;

/// The default vector name as a sequence of characters: the empty sequence.
pub open spec fn default_name() -> Seq<char> {
    Seq::<char>::empty()
}

/// The default vector name has no characters.
pub proof fn lemma_default_name()
    ensures
        DEFAULT_VECTOR_NAME@ == default_name(),
{
    reveal_strlit("");
    assert(DEFAULT_VECTOR_NAME@ =~= default_name());
}

/// One vector, dense or sparse.
#[derive(Debug)]
pub enum Vector {
    Dense(VectorType),
    Sparse(SparseVector),
}

/// The mathematical content of a vector, owned or borrowed.
pub enum VectorView {
    Dense(Seq<VectorElementType>),
    Sparse(SparseVectorView),
}

/// A borrowed vector, dense or sparse.
#[derive(Debug, Clone, Copy)]
pub enum VectorRef<'a> {
    Dense(&'a [VectorElementType]),
    Sparse(&'a SparseVector),
}

impl VectorView {
    /// Number of explicit entries: the components of a dense vector, the
    /// listed dimensions of a sparse one.
    pub open spec fn len(self) -> nat {
        match self {
            VectorView::Dense(v) => v.len(),
            VectorView::Sparse(v) => v.len(),
        }
    }

    /// Whether the vector has no explicit entry.
    pub open spec fn is_empty(self) -> bool {
        self.len() == 0
    }

    /// The rules that the vector breaks. A dense vector breaks none.
    pub open spec fn errors(self) -> ValidationErrors {
        match self {
            VectorView::Dense(_) => ValidationErrors::none(),
            VectorView::Sparse(v) => v.errors(),
        }
    }

    /// The dense facet of the vector.
    pub open spec fn dense(self) -> Result<Seq<VectorElementType>, OperationError> {
        match self {
            VectorView::Dense(v) => Ok(v),
            VectorView::Sparse(_) => Err(OperationError::WrongSparse),
        }
    }

    /// The sparse facet of the vector.
    pub open spec fn sparse(self) -> Result<SparseVectorView, OperationError> {
        match self {
            VectorView::Dense(_) => Err(OperationError::WrongSparse),
            VectorView::Sparse(v) => Ok(v),
        }
    }
}

impl View for Vector {
    type V = VectorView;

    open spec fn view(&self) -> VectorView {
        match self {
            Vector::Dense(v) => VectorView::Dense(v@),
            Vector::Sparse(v) => VectorView::Sparse(v@),
        }
    }
}

impl<'a> View for VectorRef<'a> {
    type V = VectorView;

    open spec fn view(&self) -> VectorView {
        match self {
            VectorRef::Dense(v) => VectorView::Dense(v@),
            VectorRef::Sparse(v) => VectorView::Sparse(v@),
        }
    }
}

/// Whether `result` is the dense facet of `vector`: its components, or the
/// variant mismatch where it is sparse.
pub open spec fn is_dense_facet(
    result: Result<&[VectorElementType], OperationError>,
    vector: VectorView,
) -> bool {
    match result {
        Ok(components) => vector.dense() == Ok::<Seq<VectorElementType>, OperationError>(
            components@,
        ),
        Err(e) => vector.dense() == Err::<Seq<VectorElementType>, OperationError>(e),
    }
}

/// Whether `result` is the sparse facet of `vector`: its index/value pairs, or
/// the variant mismatch where it is dense.
pub open spec fn is_sparse_facet(
    result: Result<&SparseVector, OperationError>,
    vector: VectorView,
) -> bool {
    match result {
        Ok(pairs) => vector.sparse() == Ok::<SparseVectorView, OperationError>(pairs@),
        Err(e) => vector.sparse() == Err::<SparseVectorView, OperationError>(e),
    }
}

/// The slice over the components of a dense vector.
pub open spec fn slice_of<'a>(v: &'a VectorType) -> &'a [VectorElementType] {
    choose|s: &'a [VectorElementType]| s@ == v@
}

/// Borrows the components of a dense vector.
pub fn as_slice<'a>(v: &'a VectorType) -> (s: &'a [VectorElementType])
    ensures
        s == slice_of(v),
        s@ == v@,
{
    let s = v.as_slice();
    proof {
        vstd::slice::axiom_slice_ext_equal(s, slice_of(v));
        assert(s =~= slice_of(v));
    }
    s
}

impl PartialEq for Vector {
    fn eq(&self, other: &Self) -> (same: bool)
        ensures
            same == (self@ == other@),
    {
        match (self, other) {
            (Vector::Dense(a), Vector::Dense(b)) => words_equal(a.as_slice(), b.as_slice()),
            (Vector::Sparse(a), Vector::Sparse(b)) => a == b,
            _ => false,
        }
    }
}

/// Two vectors are equal when they are of the same variant and have the
/// same content.
impl PartialEqSpecImpl for Vector {
    open spec fn obeys_eq_spec() -> bool {
        true
    }

    open spec fn eq_spec(&self, other: &Self) -> bool {
        self@ == other@
    }
}

impl<'a> PartialEq for VectorRef<'a> {
    fn eq(&self, other: &Self) -> (same: bool)
        ensures
            same == (self@ == other@),
    {
        match (self, other) {
            (VectorRef::Dense(a), VectorRef::Dense(b)) => words_equal(a, b),
            (VectorRef::Sparse(a), VectorRef::Sparse(b)) => *a == *b,
            _ => false,
        }
    }
}

/// Two borrowed vectors are equal when they are of the same variant and
/// have the same content.
impl<'a> PartialEqSpecImpl for VectorRef<'a> {
    open spec fn obeys_eq_spec() -> bool {
        true
    }

    open spec fn eq_spec(&self, other: &Self) -> bool {
        self@ == other@
    }
}

impl Clone for Vector {
    fn clone(&self) -> (copy: Self)
        ensures
            copy@ == self@,
    {
        match self {
            Vector::Dense(v) => Vector::Dense(v.clone()),
            Vector::Sparse(v) => Vector::Sparse(v.clone()),
        }
    }
}

impl Vector {
    /// A borrowed form of this vector.
    pub fn to_vec_ref(&self) -> (r: VectorRef<'_>)
        ensures
            r@ == self@,
    {
        match self {
            Vector::Dense(v) => VectorRef::Dense(as_slice(v)),
            Vector::Sparse(v) => VectorRef::Sparse(v),
        }
    }
}

impl Validate for Vector {
    open spec fn errors(&self) -> ValidationErrors {
        self@.errors()
    }

    fn validate(&self) -> (result: Result<(), ValidationErrors>)
        ensures
            result == self.errors().outcome(),
    {
        match self {
            Vector::Dense(_) => Ok(()),
            Vector::Sparse(v) => v.validate(),
        }
    }
}

impl<'a> VectorRef<'a> {
    /// An owned copy of the vector.
    pub fn to_vec(self) -> (v: Vector)
        ensures
            v@ == self@,
    {
        match self {
            VectorRef::Dense(v) => Vector::Dense(slice_to_vec(v)),
            VectorRef::Sparse(v) => Vector::Sparse(v.clone()),
        }
    }

    /// An owned copy of the vector.
    pub fn to_owned(self) -> (v: Vector)
        ensures
            v@ == self@,
    {
        match self {
            VectorRef::Dense(v) => Vector::Dense(slice_to_vec(v)),
            VectorRef::Sparse(v) => Vector::Sparse(v.clone()),
        }
    }

    /// Number of explicit entries: the components of a dense vector, the
    /// listed dimensions of a sparse one.
    pub fn len(&self) -> (n: usize)
        ensures
            n == self@.len(),
    {
        match self {
            VectorRef::Dense(v) => v.len(),
            VectorRef::Sparse(v) => v.indices.len(),
        }
    }

    /// Whether the vector has no explicit entry.
    pub fn is_empty(&self) -> (empty: bool)
        ensures
            empty == self@.is_empty(),
    {
        self.len() == 0
    }
}

impl<'a> TryFrom<VectorRef<'a>> for &'a [VectorElementType] {
    type Error = OperationError;

    fn try_from(value: VectorRef<'a>) -> (result: Result<Self, OperationError>) {
        match value {
            VectorRef::Dense(v) => Ok(v),
            VectorRef::Sparse(_) => Err(OperationError::WrongSparse),
        }
    }
}

impl<'a> TryFromSpecImpl<VectorRef<'a>> for &'a [VectorElementType] {
    open spec fn obeys_try_from_spec() -> bool {
        true
    }

    open spec fn try_from_spec(value: VectorRef<'a>) -> Result<Self, OperationError> {
        match value {
            VectorRef::Dense(v) => Ok(v),
            VectorRef::Sparse(_) => Err(OperationError::WrongSparse),
        }
    }
}

impl<'a> TryFrom<VectorRef<'a>> for &'a SparseVector {
    type Error = OperationError;

    fn try_from(value: VectorRef<'a>) -> (result: Result<Self, OperationError>) {
        match value {
            VectorRef::Dense(_) => Err(OperationError::WrongSparse),
            VectorRef::Sparse(v) => Ok(v),
        }
    }
}

impl<'a> TryFromSpecImpl<VectorRef<'a>> for &'a SparseVector {
    open spec fn obeys_try_from_spec() -> bool {
        true
    }

    open spec fn try_from_spec(value: VectorRef<'a>) -> Result<Self, OperationError> {
        match value {
            VectorRef::Dense(_) => Err(OperationError::WrongSparse),
            VectorRef::Sparse(v) => Ok(v),
        }
    }
}

impl TryFrom<Vector> for VectorType {
    type Error = OperationError;

    fn try_from(value: Vector) -> (result: Result<Self, OperationError>) {
        match value {
            Vector::Dense(v) => Ok(v),
            Vector::Sparse(_) => Err(OperationError::WrongSparse),
        }
    }
}

impl TryFromSpecImpl<Vector> for VectorType {
    open spec fn obeys_try_from_spec() -> bool {
        true
    }

    open spec fn try_from_spec(value: Vector) -> Result<Self, OperationError> {
        match value {
            Vector::Dense(v) => Ok(v),
            Vector::Sparse(_) => Err(OperationError::WrongSparse),
        }
    }
}

impl TryFrom<Vector> for SparseVector {
    type Error = OperationError;

    fn try_from(value: Vector) -> (result: Result<Self, OperationError>) {
        match value {
            Vector::Dense(_) => Err(OperationError::WrongSparse),
            Vector::Sparse(v) => Ok(v),
        }
    }
}

impl TryFromSpecImpl<Vector> for SparseVector {
    open spec fn obeys_try_from_spec() -> bool {
        true
    }

    open spec fn try_from_spec(value: Vector) -> Result<Self, OperationError> {
        match value {
            Vector::Dense(_) => Err(OperationError::WrongSparse),
            Vector::Sparse(v) => Ok(v),
        }
    }
}

impl<'a> From<&'a [VectorElementType]> for VectorRef<'a> {
    fn from(val: &'a [VectorElementType]) -> (r: Self)
        ensures
            r == VectorRef::Dense(val),
    {
        VectorRef::Dense(val)
    }
}

impl<'a> FromSpecImpl<&'a [VectorElementType]> for VectorRef<'a> {
    open spec fn obeys_from_spec() -> bool {
        true
    }

    open spec fn from_spec(val: &'a [VectorElementType]) -> Self {
        VectorRef::Dense(val)
    }
}

impl<'a> From<&'a VectorType> for VectorRef<'a> {
    fn from(val: &'a VectorType) -> (r: Self)
        ensures
            r@ == VectorView::Dense(val@),
    {
        VectorRef::Dense(as_slice(val))
    }
}

impl<'a> FromSpecImpl<&'a VectorType> for VectorRef<'a> {
    open spec fn obeys_from_spec() -> bool {
        true
    }

    open spec fn from_spec(val: &'a VectorType) -> Self {
        VectorRef::Dense(slice_of(val))
    }
}

impl<'a> From<&'a SparseVector> for VectorRef<'a> {
    fn from(val: &'a SparseVector) -> (r: Self)
        ensures
            r == VectorRef::Sparse(val),
    {
        VectorRef::Sparse(val)
    }
}

impl<'a> FromSpecImpl<&'a SparseVector> for VectorRef<'a> {
    open spec fn obeys_from_spec() -> bool {
        true
    }

    open spec fn from_spec(val: &'a SparseVector) -> Self {
        VectorRef::Sparse(val)
    }
}

impl From<VectorType> for Vector {
    fn from(val: VectorType) -> (v: Self)
        ensures
            v == Vector::Dense(val),
    {
        Vector::Dense(val)
    }
}

impl FromSpecImpl<VectorType> for Vector {
    open spec fn obeys_from_spec() -> bool {
        true
    }

    open spec fn from_spec(val: VectorType) -> Self {
        Vector::Dense(val)
    }
}

impl From<SparseVector> for Vector {
    fn from(val: SparseVector) -> (v: Self)
        ensures
            v == Vector::Sparse(val),
    {
        Vector::Sparse(val)
    }
}

impl FromSpecImpl<SparseVector> for Vector {
    open spec fn obeys_from_spec() -> bool {
        true
    }

    open spec fn from_spec(val: SparseVector) -> Self {
        Vector::Sparse(val)
    }
}

impl<'a> From<&'a Vector> for VectorRef<'a> {
    fn from(val: &'a Vector) -> (r: Self)
        ensures
            r@ == val@,
    {
        match val {
            Vector::Dense(v) => VectorRef::Dense(as_slice(v)),
            Vector::Sparse(v) => VectorRef::Sparse(v),
        }
    }
}

impl<'a> FromSpecImpl<&'a Vector> for VectorRef<'a> {
    open spec fn obeys_from_spec() -> bool {
        true
    }

    open spec fn from_spec(val: &'a Vector) -> Self {
        match val {
            Vector::Dense(v) => VectorRef::Dense(slice_of(v)),
            Vector::Sparse(v) => VectorRef::Sparse(v),
        }
    }
}

impl<'a> TryInto<&'a [VectorElementType]> for &'a Vector {
    type Error = OperationError;

    fn try_into(self) -> (result: Result<&'a [VectorElementType], OperationError>)
        ensures
            is_dense_facet(result, self@),
    {
        match self {
            Vector::Dense(v) => Ok(as_slice(v)),
            Vector::Sparse(_) => Err(OperationError::WrongSparse),
        }
    }
}

impl<'a> TryIntoSpecImpl<&'a [VectorElementType]> for &'a Vector {
    open spec fn obeys_try_into_spec() -> bool {
        true
    }

    open spec fn try_into_spec(self) -> Result<&'a [VectorElementType], OperationError> {
        match self {
            Vector::Dense(v) => Ok(slice_of(v)),
            Vector::Sparse(_) => Err(OperationError::WrongSparse),
        }
    }
}

impl<'a> TryInto<&'a SparseVector> for &'a Vector {
    type Error = OperationError;

    fn try_into(self) -> (result: Result<&'a SparseVector, OperationError>)
        ensures
            is_sparse_facet(result, self@),
    {
        match self {
            Vector::Dense(_) => Err(OperationError::WrongSparse),
            Vector::Sparse(v) => Ok(v),
        }
    }
}

impl<'a> TryIntoSpecImpl<&'a SparseVector> for &'a Vector {
    open spec fn obeys_try_into_spec() -> bool {
        true
    }

    open spec fn try_into_spec(self) -> Result<&'a SparseVector, OperationError> {
        match self {
            Vector::Dense(_) => Err(OperationError::WrongSparse),
            Vector::Sparse(v) => Ok(v),
        }
    }
}

/// Asking a vector for the facet of the other variant fails with the
/// mismatch of variants, and asking for its own facet gives its content.
pub proof fn lemma_narrowing(v: Vector)
    ensures
        match v {
            Vector::Dense(components) => {
                &&& <VectorType as TryFromSpec<Vector>>::try_from_spec(v) is Ok
                &&& <VectorType as TryFromSpec<Vector>>::try_from_spec(v)->Ok_0 == components
                &&& <SparseVector as TryFromSpec<Vector>>::try_from_spec(v) is Err
                &&& <SparseVector as TryFromSpec<Vector>>::try_from_spec(v)->Err_0
                    == OperationError::WrongSparse
                &&& <&Vector as TryIntoSpec<&SparseVector>>::try_into_spec(&v) is Err
                &&& <&Vector as TryIntoSpec<&SparseVector>>::try_into_spec(&v)->Err_0
                    == OperationError::WrongSparse
                &&& v@.dense() is Ok
                &&& v@.dense()->Ok_0 == components@
                &&& v@.sparse() is Err
                &&& v@.sparse()->Err_0 == OperationError::WrongSparse
            },
            Vector::Sparse(pairs) => {
                &&& <SparseVector as TryFromSpec<Vector>>::try_from_spec(v) is Ok
                &&& <SparseVector as TryFromSpec<Vector>>::try_from_spec(v)->Ok_0 == pairs
                &&& <VectorType as TryFromSpec<Vector>>::try_from_spec(v) is Err
                &&& <VectorType as TryFromSpec<Vector>>::try_from_spec(v)->Err_0
                    == OperationError::WrongSparse
                &&& <&Vector as TryIntoSpec<&[VectorElementType]>>::try_into_spec(&v) is Err
                &&& <&Vector as TryIntoSpec<&[VectorElementType]>>::try_into_spec(&v)->Err_0
                    == OperationError::WrongSparse
                &&& v@.sparse() is Ok
                &&& v@.sparse()->Ok_0 == pairs@
                &&& v@.dense() is Err
                &&& v@.dense()->Err_0 == OperationError::WrongSparse
            },
        },
{
}

/// Asking a borrowed vector for the facet of the other variant fails with
/// the mismatch of variants, and asking for its own facet gives what it
/// borrows.
pub proof fn lemma_narrowing_borrowed(v: VectorRef<'_>)
    ensures
        match v {
            VectorRef::Dense(components) => {
                &&& <&[VectorElementType] as TryFromSpec<VectorRef<'_>>>::try_from_spec(v) is Ok
                &&& <&[VectorElementType] as TryFromSpec<VectorRef<'_>>>::try_from_spec(v)->Ok_0
                    == components
                &&& <&SparseVector as TryFromSpec<VectorRef<'_>>>::try_from_spec(v) is Err
                &&& <&SparseVector as TryFromSpec<VectorRef<'_>>>::try_from_spec(v)->Err_0
                    == OperationError::WrongSparse
            },
            VectorRef::Sparse(pairs) => {
                &&& <&SparseVector as TryFromSpec<VectorRef<'_>>>::try_from_spec(v) is Ok
                &&& <&SparseVector as TryFromSpec<VectorRef<'_>>>::try_from_spec(v)->Ok_0 == pairs
                &&& <&[VectorElementType] as TryFromSpec<VectorRef<'_>>>::try_from_spec(v) is Err
                &&& <&[VectorElementType] as TryFromSpec<VectorRef<'_>>>::try_from_spec(v)->Err_0
                    == OperationError::WrongSparse
            },
        },
{
}

} // verus!
