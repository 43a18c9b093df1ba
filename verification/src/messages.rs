//! The messages that carry a change to a shard.

use vstd::prelude::*;
use crate::operations::PointIdType;
use crate::operations::ShardId;
use crate::operations::WriteOrdering;
use crate::vector_struct::VectorStruct;

verus! {

/// A point as it is sent to a shard.
#[derive(Clone, Debug, PartialEq)]
pub struct PointStruct<P> {
    pub id: Option<PointIdType>,
    pub vectors: Option<VectorStruct>,
    pub payload: Option<P>,
}

/// A list of point identifiers.
#[derive(Clone, Debug, PartialEq)]
pub struct PointsIdsList {
    pub ids: Vec<PointIdType>,
}

/// The two ways to select points: by identifier or by condition.
#[derive(Clone, Debug, PartialEq)]
pub enum PointsSelectorOneOf<F> {
    Points(PointsIdsList),
    Filter(F),
}

/// The points that an operation applies to.
#[derive(Clone, Debug, PartialEq)]
pub struct PointsSelector<F> {
    pub points_selector_one_of: Option<PointsSelectorOneOf<F>>,
}

/// The type of the values of an indexed payload field.
#[derive(Clone, Copy, Debug, PartialEq, Eq, Structural)]
pub enum FieldType {
    Keyword,
    Integer,
    Float,
    Geo,
    Text,
}

/// Parameters of a payload index, by the type of index.
#[derive(Clone, Debug, PartialEq)]
pub enum PayloadIndexParams<T> {
    TextIndexParams(T),
}

/// The points that a range of identifiers of a collection must hold.
#[derive(Clone, Debug, PartialEq)]
pub struct SyncPoints<P> {
    pub collection_name: String,
    pub wait: Option<bool>,
    pub points: Vec<PointStruct<P>>,
    pub from_id: Option<PointIdType>,
    pub to_id: Option<PointIdType>,
    pub ordering: Option<WriteOrdering>,
}

/// Brings the points of a range of identifiers on a shard in line with a
/// given list.
#[derive(Clone, Debug, PartialEq)]
pub struct SyncPointsInternal<P> {
    pub shard_id: Option<ShardId>,
    pub sync_points: Option<SyncPoints<P>>,
}

/// The points to insert into a collection or to update in it.
#[derive(Clone, Debug, PartialEq)]
pub struct UpsertPoints<P> {
    pub collection_name: String,
    pub wait: Option<bool>,
    pub points: Vec<PointStruct<P>>,
    pub ordering: Option<WriteOrdering>,
}

/// Inserts or updates points on a shard.
#[derive(Clone, Debug, PartialEq)]
pub struct UpsertPointsInternal<P> {
    pub shard_id: Option<ShardId>,
    pub upsert_points: Option<UpsertPoints<P>>,
}

/// The points to delete from a collection.
#[derive(Clone, Debug, PartialEq)]
pub struct DeletePoints<F> {
    pub collection_name: String,
    pub wait: Option<bool>,
    pub points: Option<PointsSelector<F>>,
    pub ordering: Option<WriteOrdering>,
}

/// Deletes the selected points on a shard.
#[derive(Clone, Debug, PartialEq)]
pub struct DeletePointsInternal<F> {
    pub shard_id: Option<ShardId>,
    pub delete_points: Option<DeletePoints<F>>,
}

/// A payload to merge into that of the selected points of a collection.
#[derive(Clone, Debug, PartialEq)]
pub struct SetPayloadPoints<P, F> {
    pub collection_name: String,
    pub wait: Option<bool>,
    pub payload: P,
    /// The selected identifiers once more, for receivers that do not read
    /// `points_selector`. Holds what the selector holds where it selects by
    /// identifier, and nothing else.
    pub points: Vec<PointIdType>,
    pub points_selector: Option<PointsSelector<F>>,
    pub ordering: Option<WriteOrdering>,
}

/// Merges a payload into that of the selected points on a shard.
#[derive(Clone, Debug, PartialEq)]
pub struct SetPayloadPointsInternal<P, F> {
    pub shard_id: Option<ShardId>,
    pub set_payload_points: Option<SetPayloadPoints<P, F>>,
}

/// Payload keys to remove from the selected points of a collection.
#[derive(Clone, Debug, PartialEq)]
pub struct DeletePayloadPoints<F> {
    pub collection_name: String,
    pub wait: Option<bool>,
    pub keys: Vec<String>,
    /// The selected identifiers once more, for receivers that do not read
    /// `points_selector`. Holds what the selector holds where it selects by
    /// identifier, and nothing else.
    pub points: Vec<PointIdType>,
    pub points_selector: Option<PointsSelector<F>>,
    pub ordering: Option<WriteOrdering>,
}

/// Removes payload keys from the selected points on a shard.
#[derive(Clone, Debug, PartialEq)]
pub struct DeletePayloadPointsInternal<F> {
    pub shard_id: Option<ShardId>,
    pub delete_payload_points: Option<DeletePayloadPoints<F>>,
}

/// The points of a collection whose payload is removed as a whole.
#[derive(Clone, Debug, PartialEq)]
pub struct ClearPayloadPoints<F> {
    pub collection_name: String,
    pub wait: Option<bool>,
    pub points: Option<PointsSelector<F>>,
    pub ordering: Option<WriteOrdering>,
}

/// Removes the whole payload of the selected points on a shard.
#[derive(Clone, Debug, PartialEq)]
pub struct ClearPayloadPointsInternal<F> {
    pub shard_id: Option<ShardId>,
    pub clear_payload_points: Option<ClearPayloadPoints<F>>,
}

/// The payload field of a collection to index, and how.
#[derive(Clone, Debug, PartialEq)]
pub struct CreateFieldIndexCollection<T> {
    pub collection_name: String,
    pub wait: Option<bool>,
    pub field_name: String,
    pub field_type: Option<FieldType>,
    pub field_index_params: Option<PayloadIndexParams<T>>,
    pub ordering: Option<WriteOrdering>,
}

/// Indexes a payload field on a shard.
#[derive(Clone, Debug, PartialEq)]
pub struct CreateFieldIndexCollectionInternal<T> {
    pub shard_id: Option<ShardId>,
    pub create_field_index_collection: Option<CreateFieldIndexCollection<T>>,
}

/// The payload field of a collection whose index is dropped.
#[derive(Clone, Debug, PartialEq)]
pub struct DeleteFieldIndexCollection {
    pub collection_name: String,
    pub wait: Option<bool>,
    pub field_name: String,
    pub ordering: Option<WriteOrdering>,
}

/// Drops the index of a payload field on a shard.
#[derive(Clone, Debug, PartialEq)]
pub struct DeleteFieldIndexCollectionInternal {
    pub shard_id: Option<ShardId>,
    pub delete_field_index_collection: Option<DeleteFieldIndexCollection>,
}

} // verus!
