//! Sparse vectors: the dimensions that carry a weight, and their weights.

use vstd::prelude::*;
use vstd::std_specs::cmp::PartialEqSpecImpl;
use crate::equality::words_equal;
use crate::validation::Validate;
use crate::validation::ValidationErrors;

verus! {

/// Index of a dimension of a sparse vector.
pub type DimId = u32;

/// Weight of a dimension of a sparse vector: the bit pattern of a
/// single-precision number.
pub type DimWeight = u32;

/// A vector given by its non-zero dimensions only: `values[i]` is the weight
/// of dimension `indices[i]`.
#[derive(Debug)]
pub struct SparseVector {
    /// The dimensions that carry a weight.
    pub indices: Vec<DimId>,
    /// The weight of each listed dimension.
    pub values: Vec<DimWeight>,
}

/// The mathematical content of a sparse vector.
pub struct SparseVectorView {
    pub indices: Seq<DimId>,
    pub values: Seq<DimWeight>,
}

/// Every element is smaller than all that follow it.
pub open spec fn strictly_ascending(s: Seq<DimId>) -> bool {
    forall|i: int, j: int| 0 <= i < j < s.len() ==> s[i] < s[j]
}

/// A sequence whose neighbours ascend strictly ascends as a whole.
pub proof fn lemma_neighbours_ascending(s: Seq<DimId>, n: int)
    requires
        0 <= n <= s.len(),
        forall|i: int| 0 < i < n ==> s[i - 1] < #[trigger] s[i],
    ensures
        strictly_ascending(s.take(n)),
    decreases n,
{
    if n > 1 {
        lemma_neighbours_ascending(s, n - 1);
        let t = s.take(n);
        let u = s.take(n - 1);
        assert forall|i: int, j: int| 0 <= i < j < t.len() implies t[i] < t[j] by {
            if j < n - 1 {
                assert(u[i] < u[j]);
            } else if i < n - 2 {
                assert(u[i] < u[n - 2]);
                assert(s[n - 2] < s[n - 1]);
            } else {
                assert(s[n - 2] < s[n - 1]);
            }
        }
    }
}

impl SparseVectorView {
    /// Number of dimensions that carry a weight.
    pub open spec fn len(self) -> nat {
        self.indices.len()
    }

    /// The rules that the vector breaks: as many values as indices, and
    /// indices unique and ascending.
    pub open spec fn errors(self) -> ValidationErrors {
        ValidationErrors {
            values_length: self.indices.len() != self.values.len(),
            indices_order: !strictly_ascending(self.indices),
        }
    }
}

impl View for SparseVector {
    type V = SparseVectorView;

    open spec fn view(&self) -> SparseVectorView {
        SparseVectorView { indices: self.indices@, values: self.values@ }
    }
}

impl PartialEq for SparseVector {
    fn eq(&self, other: &Self) -> (same: bool)
        ensures
            same == (self@ == other@),
    {
        words_equal(self.indices.as_slice(), other.indices.as_slice()) && words_equal(
            self.values.as_slice(),
            other.values.as_slice(),
        )
    }
}

/// Two sparse vectors are equal when they list the same dimensions with the
/// same weights, in the same order.
impl PartialEqSpecImpl for SparseVector {
    open spec fn obeys_eq_spec() -> bool {
        true
    }

    open spec fn eq_spec(&self, other: &Self) -> bool {
        self@ == other@
    }
}

impl Clone for SparseVector {
    fn clone(&self) -> (copy: Self)
        ensures
            copy@ == self@,
    {
        SparseVector { indices: self.indices.clone(), values: self.values.clone() }
    }
}

/// Whether the indices are unique and in ascending order.
pub fn indices_ascending(indices: &[DimId]) -> (ascending: bool)
    ensures
        ascending == strictly_ascending(indices@),
{
    let mut i: usize = 1;
    while i < indices.len()
        invariant
            1 <= i,
            forall|k: int|
                0 < k < i && k < indices@.len() ==> indices@[k - 1] < #[trigger] indices@[k],
        decreases indices.len() - i,
    {
        if indices[i - 1] >= indices[i] {
            return false;
        }
        i += 1;
    }
    proof {
        lemma_neighbours_ascending(indices@, indices@.len() as int);
        assert(indices@.take(indices@.len() as int) =~= indices@);
    }
    true
}

impl SparseVector {
    /// A sparse vector of the given dimensions and weights, if they form a
    /// valid one.
    pub fn new(indices: Vec<DimId>, values: Vec<DimWeight>) -> (result: Result<
        SparseVector,
        ValidationErrors,
    >)
        ensures
            match result {
                Ok(vector) => vector.indices == indices && vector.values == values
                    && vector@.errors().is_clean(),
                Err(errors) => !errors.is_clean() && errors == (SparseVectorView {
                    indices: indices@,
                    values: values@,
                }).errors(),
            },
    {
        let vector = SparseVector { indices, values };
        match vector.validate() {
            Ok(_) => Ok(vector),
            Err(errors) => Err(errors),
        }
    }

    /// Number of dimensions that carry a weight.
    pub fn len(&self) -> (n: usize)
        ensures
            n == self@.len(),
    {
        self.indices.len()
    }

    /// Whether no dimension carries a weight.
    pub fn is_empty(&self) -> (empty: bool)
        ensures
            empty == (self@.len() == 0),
    {
        self.indices.len() == 0
    }
}

impl Validate for SparseVector {
    open spec fn errors(&self) -> ValidationErrors {
        self@.errors()
    }

    fn validate(&self) -> (result: Result<(), ValidationErrors>)
        ensures
            result == self.errors().outcome(),
    {
        let errors = ValidationErrors {
            values_length: self.indices.len() != self.values.len(),
            indices_order: !indices_ascending(self.indices.as_slice()),
        };
        errors.into_result()
    }
}

} // verus!
