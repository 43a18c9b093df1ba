//! The points of a change in the form in which a message carries them.

use vstd::prelude::*;
use crate::batch::BatchVectorStruct;
use crate::batch::BatchVectorStructView;
use crate::batch::aligned;
use crate::batch::dense_of;
use crate::batch::lists_have_len;
use crate::batch::lists_of;
use crate::batch::row;
use crate::batch::singles;
use crate::batch::transposed;
use crate::batch::vectors_of;
use crate::named_vectors::NamedVectors;
use crate::operations::Batch;
use crate::operations::CollectionError;
use crate::operations::CollectionResult;
use crate::operations::PointInsertOperations;
use crate::vector_struct::VectorStruct;
use crate::vector_struct::VectorStructView;
use crate::vector_struct::single_default;
use crate::vectors::DEFAULT_VECTOR_NAME;
use crate::vectors::Vector;
use crate::vectors::VectorView;
use crate::vectors::default_name;
use crate::vectors::lemma_default_name;

verus! {

/// A point as it is sent to a shard.
pub open spec fn exchanged<P>(
    point: crate::operations::PointStruct<P>,
) -> crate::messages::PointStruct<P> {
    crate::messages::PointStruct {
        id: Some(point.id),
        vectors: Some(point.vector),
        payload: point.payload,
    }
}

/// Each point as it is sent to a shard.
pub open spec fn all_exchanged<P>(points: Seq<crate::operations::PointStruct<P>>) -> Seq<
    crate::messages::PointStruct<P>,
> {
    points.map_values(|point: crate::operations::PointStruct<P>| exchanged(point))
}

/// Turns points into the form in which they are sent to a shard.
pub fn points_into_messages<P>(points: Vec<crate::operations::PointStruct<P>>) -> (sent: Vec<
    crate::messages::PointStruct<P>,
>)
    ensures
        sent@ == all_exchanged(points@),
{
    let ghost all = points@;
    let mut sent: Vec<crate::messages::PointStruct<P>> = Vec::new();
    for point in it: points
        invariant
            it.seq() == all,
            sent@ == all_exchanged(all.take(it.index() as int)),
    {
        sent.push(
            crate::messages::PointStruct {
                id: Some(point.id),
                vectors: Some(point.vector),
                payload: point.payload,
            },
        );
        assert(sent@ =~= all_exchanged(all.take(it.index() + 1)));
    }
    assert(all.take(all.len() as int) =~= all);
    sent
}

/// Whether every collection of a list has an exchanged form.
pub open spec fn all_exchangeable(all: Seq<Map<Seq<char>, VectorView>>) -> bool {
    forall|i: int| 0 <= i < all.len() ==> VectorStructView::exchangeable(#[trigger] all[i])
}

/// Whether a batch of vectors can be sent for `n` points: it holds vectors
/// for `n` points, and the collection of each point has an exchanged form.
pub open spec fn batch_convertible(vectors: BatchVectorStructView, n: nat) -> bool {
    vectors.fits(n) && all_exchangeable(vectors.all_vectors(n))
}

/// Whether every vector of a list is dense.
pub open spec fn all_dense(list: Seq<VectorView>) -> bool {
    forall|i: int| 0 <= i < list.len() ==> (#[trigger] list[i]) is Dense
}

/// Whether lists by name give collections for `n` points that all have an
/// exchanged form: lists that are the default name's alone hold dense
/// vectors only.
pub open spec fn lists_exchangeable(m: Map<Seq<char>, Seq<VectorView>>, n: nat) -> bool {
    n > 0 && m.len() == 1 && m.contains_key(default_name()) ==> all_dense(m[default_name()])
}

/// The collections that aligned lists give all have an exchanged form
/// exactly when lists that are the default name's alone hold dense vectors
/// only.
pub proof fn lemma_lists_exchangeable(m: Map<Seq<char>, Seq<VectorView>>, n: nat)
    requires
        aligned(m, n),
    ensures
        all_exchangeable(transposed(m, n)) == lists_exchangeable(m, n),
{
    let all = transposed(m, n);
    assert forall|i: int| 0 <= i < n implies (#[trigger] all[i]).dom() == m.dom() by {
        assert(row(m, i).dom() =~= m.dom());
    }
    if lists_exchangeable(m, n) {
        assert forall|i: int| 0 <= i < all.len() implies VectorStructView::exchangeable(
            #[trigger] all[i],
        ) by {
            if VectorStructView::collapses(all[i]) {
                assert(m[default_name()][i] is Dense);
            }
        }
    }
    if all_exchangeable(all) && n > 0 && m.len() == 1 && m.contains_key(default_name()) {
        assert forall|i: int| 0 <= i < m[default_name()].len() implies (
        #[trigger] m[default_name()][i]) is Dense by {
            assert(VectorStructView::exchangeable(all[i]));
            assert(VectorStructView::collapses(all[i]));
            assert(all[i][default_name()] == m[default_name()][i]);
        }
    }
}

/// Whether every vector of a list is dense.
pub fn is_all_dense(list: &[Vector]) -> (dense: bool)
    ensures
        dense == all_dense(vectors_of(list@)),
{
    let mut i: usize = 0;
    while i < list.len()
        invariant
            i <= list.len(),
            forall|p: int| 0 <= p < i ==> (#[trigger] list@[p]) is Dense,
        decreases list.len() - i,
    {
        if let Vector::Sparse(_) = &list[i] {
            assert(vectors_of(list@)[i as int] is Sparse);
            return false;
        }
        i += 1;
    }
    proof {
        assert forall|p: int| 0 <= p < vectors_of(list@).len() implies (#[trigger] vectors_of(
            list@,
        )[p]) is Dense by {
            assert(list@[p] is Dense);
        }
    }
    true
}

/// Whether a batch can be sent to a shard.
pub fn is_batch_convertible<P>(batch: &Batch<P>) -> (convertible: bool)
    ensures
        convertible == batch_convertible(batch.vectors@, batch.ids@.len()),
{
    let n = batch.ids.len();
    match &batch.vectors {
        BatchVectorStruct::Single(list) => {
            proof {
                let all = singles(dense_of(list@));
                assert forall|i: int| 0 <= i < all.len() implies VectorStructView::exchangeable(
                    #[trigger] all[i],
                ) by {
                    assert(all[i] == single_default(dense_of(list@)[i]));
                }
            }
            true
        },
        BatchVectorStruct::Multi(named_vectors) => {
            proof {
                lemma_default_name();
                named_vectors.lemma_finite();
                assert(lists_of(named_vectors@).dom() =~= named_vectors@.dom());
                if aligned(lists_of(named_vectors@), n as nat) {
                    lemma_lists_exchangeable(lists_of(named_vectors@), n as nat);
                }
            }
            if !lists_have_len(named_vectors, n) {
                return false;
            }
            if n > 0 && named_vectors.len() == 1 {
                match named_vectors.get(DEFAULT_VECTOR_NAME) {
                    Some(list) => is_all_dense(list.as_slice()),
                    None => true,
                }
            } else {
                true
            }
        },
    }
}

/// The payload of point `i` of a batch: the one at position `i`, if there
/// is one.
pub open spec fn batch_payload<P>(payloads: Option<Vec<Option<P>>>, i: int) -> Option<P> {
    match payloads {
        Some(list) => if 0 <= i < list.len() {
            list[i]
        } else {
            None
        },
        None => None,
    }
}

/// Whether `vectors` is the exchanged form of the collection of point `i`,
/// and absent where the batch has no vectors for that point.
pub open spec fn is_batch_vectors(
    vectors: Option<VectorStruct>,
    all: Seq<Map<Seq<char>, VectorView>>,
    i: int,
) -> bool {
    match vectors {
        Some(exchanged) => i < all.len() && exchanged@ == VectorStructView::from_named(all[i]),
        None => all.len() <= i,
    }
}

/// Whether `point` is point `i` of `batch` as it is sent to a shard.
pub open spec fn is_batch_point<P>(
    point: crate::messages::PointStruct<P>,
    batch: Batch<P>,
    i: int,
) -> bool {
    &&& point.id == Some(batch.ids[i])
    &&& point.payload == batch_payload(batch.payloads, i)
    &&& is_batch_vectors(point.vectors, batch.vectors@.all_vectors(batch.ids@.len()), i)
}

/// Whether `points` are the points of `batch` as they are sent to a shard:
/// one for each identifier, in order.
pub open spec fn are_batch_points<P>(
    points: Seq<crate::messages::PointStruct<P>>,
    batch: Batch<P>,
) -> bool {
    &&& points.len() == batch.ids@.len()
    &&& forall|i: int| 0 <= i < points.len() ==> is_batch_point(#[trigger] points[i], batch, i)
}

/// Why a batch cannot be sent where a list by name has another number of
/// vectors than the batch has identifiers.
pub const MISALIGNED_BATCH: &'static str = "number of ids and vectors must be equal";

/// Why a batch cannot be sent where its only list is the default name's and
/// holds a sparse vector.
pub const SPARSE_DEFAULT_VECTOR: &'static str = "a sparse vector needs a name of its own";

/// Why a batch of vectors cannot be sent for `n` points, if it cannot.
pub open spec fn batch_rejection(vectors: BatchVectorStructView, n: nat) -> Option<Seq<char>> {
    if !vectors.fits(n) {
        Some(MISALIGNED_BATCH@)
    } else if !all_exchangeable(vectors.all_vectors(n)) {
        Some(SPARSE_DEFAULT_VECTOR@)
    } else {
        None
    }
}

/// Whether `error` says that the input is malformed, for the given reason.
pub open spec fn is_bad_input(error: CollectionError, reason: Option<Seq<char>>) -> bool {
    match error {
        CollectionError::BadInput { description } => reason == Some(description@),
    }
}

/// Whether `result` is what a batch is turned into: its points as they are
/// sent to a shard, or the reason why it cannot be sent.
pub open spec fn is_batch_result<P>(
    result: CollectionResult<Vec<crate::messages::PointStruct<P>>>,
    batch: Batch<P>,
) -> bool {
    match result {
        Ok(points) => batch_convertible(batch.vectors@, batch.ids@.len()) && are_batch_points(
            points@,
            batch,
        ),
        Err(error) => !batch_convertible(batch.vectors@, batch.ids@.len()) && is_bad_input(
            error,
            batch_rejection(batch.vectors@, batch.ids@.len()),
        ),
    }
}

/// Turns a batch into one point per identifier, in the form in which points
/// are sent to a shard. Point `i` gets identifier `i`, the exchanged form of
/// the vectors at position `i`, and the payload at position `i` if there is
/// one. A batch that does not hold vectors for each of its identifiers, or
/// whose vectors have no exchanged form, is refused.
pub fn batch_into_points<P>(batch: Batch<P>) -> (result: CollectionResult<
    Vec<crate::messages::PointStruct<P>>,
>)
    ensures
        is_batch_result(result, batch),
{
    if !batch.vectors.fits(batch.ids.len()) {
        return Err(CollectionError::BadInput { description: MISALIGNED_BATCH.to_owned() });
    }
    if !is_batch_convertible(&batch) {
        return Err(CollectionError::BadInput { description: SPARSE_DEFAULT_VECTOR.to_owned() });
    }
    let ghost all = batch.vectors@.all_vectors(batch.ids@.len());
    let ids = batch.ids;
    let mut payloads = batch.payloads;
    let mut all_vectors = batch.vectors.into_all_vectors(ids.len());
    let mut points: Vec<crate::messages::PointStruct<P>> = Vec::new();
    let mut i: usize = 0;
    while i < ids.len()
        invariant
            i <= ids.len(),
            ids == batch.ids,
            all == batch.vectors@.all_vectors(batch.ids@.len()),
            all_exchangeable(all),
            all_vectors.len() == all.len(),
            forall|p: int| i <= p < all_vectors.len() ==> (#[trigger] all_vectors[p])@ == all[p],
            payloads is Some == batch.payloads is Some,
            payloads is Some ==> payloads->0.len() == batch.payloads->0.len(),
            forall|p: int|
                payloads is Some && i <= p < payloads->0.len() ==> (#[trigger] payloads->0[p])
                    == batch.payloads->0[p],
            points.len() == i,
            forall|p: int| 0 <= p < i ==> is_batch_point(#[trigger] points[p], batch, p),
        decreases ids.len() - i,
    {
        let id = ids[i];
        let vectors = if i < all_vectors.len() {
            let mut collection = NamedVectors::new();
            std::mem::swap(&mut collection, &mut all_vectors[i]);
            Some(VectorStruct::from_named_vectors(collection))
        } else {
            None
        };
        let payload = match &mut payloads {
            Some(list) => if i < list.len() {
                list[i].take()
            } else {
                None
            },
            None => None,
        };
        points.push(crate::messages::PointStruct { id: Some(id), vectors, payload });
        i += 1;
    }
    Ok(points)
}

/// Whether the points to insert or update can be sent to a shard. Points
/// given one by one always can.
pub open spec fn convertible<P>(operations: PointInsertOperations<P>) -> bool {
    match operations {
        PointInsertOperations::PointsBatch(batch) => batch_convertible(
            batch.vectors@,
            batch.ids@.len(),
        ),
        PointInsertOperations::PointsList(_) => true,
    }
}

/// Whether the points to insert or update can be sent to a shard.
pub fn is_convertible<P>(operations: &PointInsertOperations<P>) -> (convertible: bool)
    ensures
        convertible == self::convertible(*operations),
{
    match operations {
        PointInsertOperations::PointsBatch(batch) => is_batch_convertible(batch),
        PointInsertOperations::PointsList(_) => true,
    }
}

/// Why the points to insert or update cannot be sent to a shard, if they
/// cannot.
pub open spec fn rejection<P>(operations: PointInsertOperations<P>) -> Option<Seq<char>> {
    match operations {
        PointInsertOperations::PointsBatch(batch) => batch_rejection(
            batch.vectors@,
            batch.ids@.len(),
        ),
        PointInsertOperations::PointsList(_) => None,
    }
}

/// Whether `points` are the points to insert or update as they are sent to
/// a shard.
pub open spec fn are_upserted<P>(
    points: Seq<crate::messages::PointStruct<P>>,
    operations: PointInsertOperations<P>,
) -> bool {
    match operations {
        PointInsertOperations::PointsBatch(batch) => are_batch_points(points, batch),
        PointInsertOperations::PointsList(list) => points == all_exchanged(list@),
    }
}

} // verus!
