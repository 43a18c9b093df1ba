//! The changes to the points of a collection that are passed on to a shard.

use vstd::prelude::*;
use crate::batch::BatchVectorStruct;
use crate::vector_struct::VectorStruct;

verus! {

/// Identifier of a shard of a collection.
pub type ShardId = u32;

/// Identifier of a point: a number, or the 128 bits of a UUID.
#[derive(Clone, Copy, Debug, PartialEq, Eq, Hash, Structural)]
pub enum PointIdType {
    NumId(u64),
    Uuid(u128),
}

/// How strictly a change is ordered against other changes when it is
/// replicated.
#[derive(Clone, Copy, Debug, PartialEq, Eq, Structural)]
pub enum WriteOrdering {
    Weak,
    Medium,
    Strong,
}

/// Why an operation on a collection failed.
#[derive(Clone, Debug, PartialEq, Eq)]
pub enum CollectionError {
    /// The request is malformed.
    BadInput { description: String },
}

/// The result of an operation on a collection.
pub type CollectionResult<T> = Result<T, CollectionError>;

/// One point: its identifier, its vectors and its payload, if it has one.
#[derive(Clone, Debug, PartialEq)]
pub struct PointStruct<P> {
    pub id: PointIdType,
    pub vector: VectorStruct,
    pub payload: Option<P>,
}

/// Several points, batched by attribute: position `i` of each list belongs
/// to point `i`.
#[derive(Clone, Debug)]
pub struct Batch<P> {
    pub ids: Vec<PointIdType>,
    pub vectors: BatchVectorStruct,
    pub payloads: Option<Vec<Option<P>>>,
}

/// The points to insert or update, batched or one by one.
#[derive(Clone, Debug)]
pub enum PointInsertOperations<P> {
    PointsBatch(Batch<P>),
    PointsList(Vec<PointStruct<P>>),
}

/// The points that a range of identifiers must hold after a catch-up.
#[derive(Clone, Debug)]
pub struct PointSyncOperation<P> {
    /// First identifier of the range, if it is bounded below.
    pub from_id: Option<PointIdType>,
    /// End of the range, if it is bounded above.
    pub to_id: Option<PointIdType>,
    pub points: Vec<PointStruct<P>>,
}

/// A payload to merge into the payload of the selected points.
#[derive(Clone, Debug)]
pub struct SetPayload<P, F> {
    pub payload: P,
    /// The points to change, by identifier.
    pub points: Option<Vec<PointIdType>>,
    /// The points to change, by condition; used where no list is given.
    pub filter: Option<F>,
}

/// Payload keys to remove from the selected points.
#[derive(Clone, Debug)]
pub struct DeletePayload<F> {
    pub keys: Vec<String>,
    /// The points to change, by identifier.
    pub points: Option<Vec<PointIdType>>,
    /// The points to change, by condition; used where no list is given.
    pub filter: Option<F>,
}

/// The type of the values of an indexed payload field.
#[derive(Clone, Copy, Debug, PartialEq, Eq, Structural)]
pub enum PayloadSchemaType {
    Keyword,
    Integer,
    Float,
    Geo,
    Text,
}

/// Parameters of an index, by the type of the field's values. Only text
/// fields have any.
#[derive(Clone, Debug, PartialEq)]
pub enum PayloadSchemaParams<T> {
    Text(T),
}

/// How a payload field is indexed: by the type of its values alone, or with
/// parameters.
#[derive(Clone, Debug, PartialEq)]
pub enum PayloadFieldSchema<T> {
    FieldType(PayloadSchemaType),
    FieldParams(PayloadSchemaParams<T>),
}

/// A request to index a payload field.
#[derive(Clone, Debug, PartialEq)]
pub struct CreateIndex<T> {
    pub field_name: String,
    pub field_schema: Option<PayloadFieldSchema<T>>,
}

} // verus!
