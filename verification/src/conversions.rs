//! The message for each change to the points of a collection.

use vstd::prelude::*;
use crate::messages::ClearPayloadPoints;
use crate::messages::ClearPayloadPointsInternal;
use crate::messages::CreateFieldIndexCollection;
use crate::messages::CreateFieldIndexCollectionInternal;
use crate::messages::DeleteFieldIndexCollection;
use crate::messages::DeleteFieldIndexCollectionInternal;
use crate::messages::DeletePayloadPoints;
use crate::messages::DeletePayloadPointsInternal;
use crate::messages::DeletePoints;
use crate::messages::DeletePointsInternal;
use crate::messages::FieldType;
use crate::messages::PayloadIndexParams;
use crate::messages::PointsIdsList;
use crate::messages::PointsSelector;
use crate::messages::PointsSelectorOneOf;
use crate::messages::SetPayloadPoints;
use crate::messages::SetPayloadPointsInternal;
use crate::messages::SyncPoints;
use crate::messages::SyncPointsInternal;
use crate::messages::UpsertPoints;
use crate::messages::UpsertPointsInternal;
use crate::operations::CollectionResult;
use crate::operations::CreateIndex;
use crate::operations::DeletePayload;
use crate::operations::PayloadFieldSchema;
use crate::operations::PayloadSchemaParams;
use crate::operations::PayloadSchemaType;
use crate::operations::PointIdType;
use crate::operations::PointInsertOperations;
use crate::operations::PointSyncOperation;
use crate::operations::SetPayload;
use crate::operations::ShardId;
use crate::operations::WriteOrdering;
use crate::point_conversions::all_exchanged;
use crate::point_conversions::are_upserted;
use crate::point_conversions::batch_into_points;
use crate::point_conversions::convertible;
use crate::point_conversions::is_bad_input;
use crate::point_conversions::points_into_messages;
use crate::point_conversions::rejection;

verus! {

/// The selector of the points given by identifier.
pub open spec fn by_ids<F>(ids: Vec<PointIdType>) -> PointsSelector<F> {
    PointsSelector {
        points_selector_one_of: Some(PointsSelectorOneOf::Points(PointsIdsList { ids })),
    }
}

/// The selector of the points that meet a condition.
pub open spec fn by_filter<F>(filter: F) -> PointsSelector<F> {
    PointsSelector { points_selector_one_of: Some(PointsSelectorOneOf::Filter(filter)) }
}

/// The selector of the points that meet a condition, if there is one.
pub open spec fn by_optional_filter<F>(filter: Option<F>) -> Option<PointsSelector<F>> {
    match filter {
        Some(f) => Some(by_filter(f)),
        None => None,
    }
}

/// The identifiers of a selection by identifier; none where there is no
/// such selection.
pub open spec fn listed_ids(points: Option<Vec<PointIdType>>) -> Seq<PointIdType> {
    match points {
        Some(ids) => ids@,
        None => Seq::empty(),
    }
}

/// Whether `selector` selects exactly the points of the given identifiers.
pub open spec fn selects_ids<F>(
    selector: Option<PointsSelector<F>>,
    ids: Seq<PointIdType>,
) -> bool {
    match selector {
        Some(selector) => match selector.points_selector_one_of {
            Some(PointsSelectorOneOf::Points(list)) => list.ids@ == ids,
            _ => false,
        },
        None => false,
    }
}

/// Whether `selector` is the selection that a list of identifiers and a
/// condition ask for: a list, even an empty one, is preferred; the condition
/// counts only where no list is given.
pub open spec fn selects<F>(
    selector: Option<PointsSelector<F>>,
    points: Option<Vec<PointIdType>>,
    filter: Option<F>,
) -> bool {
    match points {
        Some(ids) => selects_ids(selector, ids@),
        None => selector == by_optional_filter(filter),
    }
}

/// The selection that a list of identifiers and a condition ask for, first
/// as a plain list of identifiers, then as a selector.
pub fn select_points<F>(points: Option<Vec<PointIdType>>, filter: Option<F>) -> (selection: (
    Vec<PointIdType>,
    Option<PointsSelector<F>>,
))
    ensures
        selection.0@ == listed_ids(points),
        selects(selection.1, points, filter),
{
    match points {
        Some(ids) => {
            let selected_points = ids.clone();
            assert(selected_points@ =~= ids@);
            (
                selected_points,
                Some(
                    PointsSelector {
                        points_selector_one_of: Some(
                            PointsSelectorOneOf::Points(PointsIdsList { ids }),
                        ),
                    },
                ),
            )
        },
        None => {
            let selector = match filter {
                Some(filter) => Some(
                    PointsSelector {
                        points_selector_one_of: Some(PointsSelectorOneOf::Filter(filter)),
                    },
                ),
                None => None,
            };
            (Vec::new(), selector)
        },
    }
}

/// Where a list of identifiers is given, the selection is that list,
/// whatever condition comes with it, and the plain list of identifiers
/// holds the same identifiers.
pub proof fn lemma_ids_take_precedence<F>(
    selection: (Vec<PointIdType>, Option<PointsSelector<F>>),
    ids: Vec<PointIdType>,
    filter: Option<F>,
)
    requires
        selection.0@ == listed_ids(Some(ids)),
        selects(selection.1, Some(ids), filter),
    ensures
        selects_ids(selection.1, ids@),
        selects_ids(selection.1, selection.0@),
        filter is Some ==> selection.1 != Some(by_filter(filter->0)),
{
}

/// Where no list of identifiers is given, the selection is the condition,
/// if there is one, and the plain list of identifiers is empty.
pub proof fn lemma_filter_without_ids<F>(
    selection: (Vec<PointIdType>, Option<PointsSelector<F>>),
    filter: Option<F>,
)
    requires
        selection.0@ == listed_ids(None),
        selects(selection.1, None, filter),
    ensures
        selection.0@.len() == 0,
        selection.1 == by_optional_filter(filter),
{
}

/// Whether `message` brings a range of identifiers in line with the points
/// of `operation`.
pub open spec fn is_sync_points<P>(
    message: Option<SyncPoints<P>>,
    collection_name: String,
    operation: PointSyncOperation<P>,
    wait: bool,
    ordering: Option<WriteOrdering>,
) -> bool {
    match message {
        Some(m) => {
            &&& m.collection_name == collection_name
            &&& m.wait == Some(wait)
            &&& m.points@ == all_exchanged(operation.points@)
            &&& m.from_id == operation.from_id
            &&& m.to_id == operation.to_id
            &&& m.ordering == ordering
        },
        None => false,
    }
}

/// Whether `result` is the message for a shard together with what is asked
/// of its sync part.
pub open spec fn is_sync_points_internal<P>(
    result: CollectionResult<SyncPointsInternal<P>>,
    shard_id: Option<ShardId>,
    collection_name: String,
    operation: PointSyncOperation<P>,
    wait: bool,
    ordering: Option<WriteOrdering>,
) -> bool {
    match result {
        Ok(message) => message.shard_id == shard_id && is_sync_points(
            message.sync_points,
            collection_name,
            operation,
            wait,
            ordering,
        ),
        Err(_) => false,
    }
}

/// The message that brings the points of a range of identifiers on a shard
/// in line with a given list. It is always built.
pub fn internal_sync_points<P>(
    shard_id: Option<ShardId>,
    collection_name: String,
    points_sync_operation: PointSyncOperation<P>,
    wait: bool,
    ordering: Option<WriteOrdering>,
) -> (result: CollectionResult<SyncPointsInternal<P>>)
    ensures
        is_sync_points_internal(
            result,
            shard_id,
            collection_name,
            points_sync_operation,
            wait,
            ordering,
        ),
{
    Ok(
        SyncPointsInternal {
            shard_id,
            sync_points: Some(
                SyncPoints {
                    collection_name,
                    wait: Some(wait),
                    points: points_into_messages(points_sync_operation.points),
                    from_id: points_sync_operation.from_id,
                    to_id: points_sync_operation.to_id,
                    ordering,
                },
            ),
        },
    )
}

/// Whether `message` inserts or updates the points of `operations`.
pub open spec fn is_upsert_points<P>(
    message: Option<UpsertPoints<P>>,
    collection_name: String,
    operations: PointInsertOperations<P>,
    wait: bool,
    ordering: Option<WriteOrdering>,
) -> bool {
    match message {
        Some(m) => {
            &&& m.collection_name == collection_name
            &&& m.wait == Some(wait)
            &&& are_upserted(m.points@, operations)
            &&& m.ordering == ordering
        },
        None => false,
    }
}

/// Whether `result` is the message that inserts or updates the points of
/// `operations` on a shard, or the reason why they cannot be sent.
pub open spec fn is_upsert_points_internal<P>(
    result: CollectionResult<UpsertPointsInternal<P>>,
    shard_id: Option<ShardId>,
    collection_name: String,
    operations: PointInsertOperations<P>,
    wait: bool,
    ordering: Option<WriteOrdering>,
) -> bool {
    match result {
        Ok(message) => {
            &&& convertible(operations)
            &&& message.shard_id == shard_id
            &&& is_upsert_points(message.upsert_points, collection_name, operations, wait, ordering)
        },
        Err(error) => !convertible(operations) && is_bad_input(error, rejection(operations)),
    }
}

/// The message that inserts or updates points on a shard. It is built for
/// points given one by one, and for a batch that holds vectors for each of
/// its identifiers in a form that can be exchanged; any other batch is
/// refused as malformed.
pub fn internal_upsert_points<P>(
    shard_id: Option<ShardId>,
    collection_name: String,
    point_insert_operations: PointInsertOperations<P>,
    wait: bool,
    ordering: Option<WriteOrdering>,
) -> (result: CollectionResult<UpsertPointsInternal<P>>)
    ensures
        is_upsert_points_internal(
            result,
            shard_id,
            collection_name,
            point_insert_operations,
            wait,
            ordering,
        ),
{
    let points = match point_insert_operations {
        PointInsertOperations::PointsBatch(batch) => match batch_into_points(batch) {
            Ok(points) => points,
            Err(error) => {
                return Err(error);
            },
        },
        PointInsertOperations::PointsList(list) => points_into_messages(list),
    };
    Ok(
        UpsertPointsInternal {
            shard_id,
            upsert_points: Some(
                UpsertPoints { collection_name, wait: Some(wait), points, ordering },
            ),
        },
    )
}

/// The message that deletes the points of the given identifiers.
pub fn internal_delete_points<F>(
    shard_id: Option<ShardId>,
    collection_name: String,
    ids: Vec<PointIdType>,
    wait: bool,
    ordering: Option<WriteOrdering>,
) -> (message: DeletePointsInternal<F>)
    ensures
        message == (DeletePointsInternal {
            shard_id,
            delete_points: Some(
                DeletePoints {
                    collection_name,
                    wait: Some(wait),
                    points: Some(by_ids::<F>(ids)),
                    ordering,
                },
            ),
        }),
{
    DeletePointsInternal {
        shard_id,
        delete_points: Some(
            DeletePoints {
                collection_name,
                wait: Some(wait),
                points: Some(
                    PointsSelector {
                        points_selector_one_of: Some(
                            PointsSelectorOneOf::Points(PointsIdsList { ids }),
                        ),
                    },
                ),
                ordering,
            },
        ),
    }
}

/// The message that deletes the points that meet a condition.
pub fn internal_delete_points_by_filter<F>(
    shard_id: Option<ShardId>,
    collection_name: String,
    filter: F,
    wait: bool,
    ordering: Option<WriteOrdering>,
) -> (message: DeletePointsInternal<F>)
    ensures
        message == (DeletePointsInternal {
            shard_id,
            delete_points: Some(
                DeletePoints {
                    collection_name,
                    wait: Some(wait),
                    points: Some(by_filter(filter)),
                    ordering,
                },
            ),
        }),
{
    DeletePointsInternal {
        shard_id,
        delete_points: Some(
            DeletePoints {
                collection_name,
                wait: Some(wait),
                points: Some(
                    PointsSelector {
                        points_selector_one_of: Some(PointsSelectorOneOf::Filter(filter)),
                    },
                ),
                ordering,
            },
        ),
    }
}

/// Whether `message` merges `set_payload` into the selected points.
pub open spec fn is_set_payload<P, F>(
    message: Option<SetPayloadPoints<P, F>>,
    collection_name: String,
    set_payload: SetPayload<P, F>,
    wait: bool,
    ordering: Option<WriteOrdering>,
) -> bool {
    match message {
        Some(m) => {
            &&& m.collection_name == collection_name
            &&& m.wait == Some(wait)
            &&& m.payload == set_payload.payload
            &&& m.points@ == listed_ids(set_payload.points)
            &&& selects(m.points_selector, set_payload.points, set_payload.filter)
            &&& m.ordering == ordering
        },
        None => false,
    }
}

/// The message that merges a payload into that of the selected points.
pub fn internal_set_payload<P, F>(
    shard_id: Option<ShardId>,
    collection_name: String,
    set_payload: SetPayload<P, F>,
    wait: bool,
    ordering: Option<WriteOrdering>,
) -> (message: SetPayloadPointsInternal<P, F>)
    ensures
        message.shard_id == shard_id,
        is_set_payload(message.set_payload_points, collection_name, set_payload, wait, ordering),
{
    let (selected_points, points_selector) = select_points(set_payload.points, set_payload.filter);
    SetPayloadPointsInternal {
        shard_id,
        set_payload_points: Some(
            SetPayloadPoints {
                collection_name,
                wait: Some(wait),
                payload: set_payload.payload,
                points: selected_points,
                points_selector,
                ordering,
            },
        ),
    }
}

/// Whether `message` removes the keys of `delete_payload` from the selected
/// points.
pub open spec fn is_delete_payload<F>(
    message: Option<DeletePayloadPoints<F>>,
    collection_name: String,
    delete_payload: DeletePayload<F>,
    wait: bool,
    ordering: Option<WriteOrdering>,
) -> bool {
    match message {
        Some(m) => {
            &&& m.collection_name == collection_name
            &&& m.wait == Some(wait)
            &&& m.keys == delete_payload.keys
            &&& m.points@ == listed_ids(delete_payload.points)
            &&& selects(m.points_selector, delete_payload.points, delete_payload.filter)
            &&& m.ordering == ordering
        },
        None => false,
    }
}

/// The message that removes payload keys from the selected points.
pub fn internal_delete_payload<F>(
    shard_id: Option<ShardId>,
    collection_name: String,
    delete_payload: DeletePayload<F>,
    wait: bool,
    ordering: Option<WriteOrdering>,
) -> (message: DeletePayloadPointsInternal<F>)
    ensures
        message.shard_id == shard_id,
        is_delete_payload(
            message.delete_payload_points,
            collection_name,
            delete_payload,
            wait,
            ordering,
        ),
{
    let (selected_points, points_selector) = select_points(
        delete_payload.points,
        delete_payload.filter,
    );
    DeletePayloadPointsInternal {
        shard_id,
        delete_payload_points: Some(
            DeletePayloadPoints {
                collection_name,
                wait: Some(wait),
                keys: delete_payload.keys,
                points: selected_points,
                points_selector,
                ordering,
            },
        ),
    }
}

/// A message that merges a payload selects the points of the list of
/// identifiers where one is given, whatever condition comes with it, and
/// its plain list of identifiers holds the same identifiers.
pub proof fn lemma_set_payload_prefers_ids<P, F>(
    message: Option<SetPayloadPoints<P, F>>,
    collection_name: String,
    set_payload: SetPayload<P, F>,
    wait: bool,
    ordering: Option<WriteOrdering>,
)
    requires
        is_set_payload(message, collection_name, set_payload, wait, ordering),
        set_payload.points is Some,
    ensures
        message is Some,
        selects_ids(message->0.points_selector, set_payload.points->0@),
        selects_ids(message->0.points_selector, message->0.points@),
{
}

/// A message that removes payload keys selects the points of the list of
/// identifiers where one is given, whatever condition comes with it, and
/// its plain list of identifiers holds the same identifiers.
pub proof fn lemma_delete_payload_prefers_ids<F>(
    message: Option<DeletePayloadPoints<F>>,
    collection_name: String,
    delete_payload: DeletePayload<F>,
    wait: bool,
    ordering: Option<WriteOrdering>,
)
    requires
        is_delete_payload(message, collection_name, delete_payload, wait, ordering),
        delete_payload.points is Some,
    ensures
        message is Some,
        selects_ids(message->0.points_selector, delete_payload.points->0@),
        selects_ids(message->0.points_selector, message->0.points@),
{
}

/// The message that removes the whole payload of the points of the given
/// identifiers.
pub fn internal_clear_payload<F>(
    shard_id: Option<ShardId>,
    collection_name: String,
    points: Vec<PointIdType>,
    wait: bool,
    ordering: Option<WriteOrdering>,
) -> (message: ClearPayloadPointsInternal<F>)
    ensures
        message == (ClearPayloadPointsInternal {
            shard_id,
            clear_payload_points: Some(
                ClearPayloadPoints {
                    collection_name,
                    wait: Some(wait),
                    points: Some(by_ids::<F>(points)),
                    ordering,
                },
            ),
        }),
{
    ClearPayloadPointsInternal {
        shard_id,
        clear_payload_points: Some(
            ClearPayloadPoints {
                collection_name,
                wait: Some(wait),
                points: Some(
                    PointsSelector {
                        points_selector_one_of: Some(
                            PointsSelectorOneOf::Points(PointsIdsList { ids: points }),
                        ),
                    },
                ),
                ordering,
            },
        ),
    }
}

/// The message that removes the whole payload of the points that meet a
/// condition.
pub fn internal_clear_payload_by_filter<F>(
    shard_id: Option<ShardId>,
    collection_name: String,
    filter: F,
    wait: bool,
    ordering: Option<WriteOrdering>,
) -> (message: ClearPayloadPointsInternal<F>)
    ensures
        message == (ClearPayloadPointsInternal {
            shard_id,
            clear_payload_points: Some(
                ClearPayloadPoints {
                    collection_name,
                    wait: Some(wait),
                    points: Some(by_filter(filter)),
                    ordering,
                },
            ),
        }),
{
    ClearPayloadPointsInternal {
        shard_id,
        clear_payload_points: Some(
            ClearPayloadPoints {
                collection_name,
                wait: Some(wait),
                points: Some(
                    PointsSelector {
                        points_selector_one_of: Some(PointsSelectorOneOf::Filter(filter)),
                    },
                ),
                ordering,
            },
        ),
    }
}

/// The exchanged name of a type of payload values.
pub open spec fn field_type_of(field_type: PayloadSchemaType) -> FieldType {
    match field_type {
        PayloadSchemaType::Keyword => FieldType::Keyword,
        PayloadSchemaType::Integer => FieldType::Integer,
        PayloadSchemaType::Float => FieldType::Float,
        PayloadSchemaType::Geo => FieldType::Geo,
        PayloadSchemaType::Text => FieldType::Text,
    }
}

/// The type and the parameters of the index that a schema asks for: none
/// without a schema, the type alone for a schema by type, and for text
/// parameters the text type with them.
pub open spec fn index_of_schema<T>(schema: Option<PayloadFieldSchema<T>>) -> (
    Option<FieldType>,
    Option<PayloadIndexParams<T>>,
) {
    match schema {
        None => (None, None),
        Some(PayloadFieldSchema::FieldType(field_type)) => (
            Some(field_type_of(field_type)),
            None,
        ),
        Some(PayloadFieldSchema::FieldParams(PayloadSchemaParams::Text(params))) => (
            Some(FieldType::Text),
            Some(PayloadIndexParams::TextIndexParams(params)),
        ),
    }
}

/// The message that indexes a payload field.
pub fn internal_create_index<T>(
    shard_id: Option<ShardId>,
    collection_name: String,
    create_index: CreateIndex<T>,
    wait: bool,
    ordering: Option<WriteOrdering>,
) -> (message: CreateFieldIndexCollectionInternal<T>)
    ensures
        message == (CreateFieldIndexCollectionInternal {
            shard_id,
            create_field_index_collection: Some(
                CreateFieldIndexCollection {
                    collection_name,
                    wait: Some(wait),
                    field_name: create_index.field_name,
                    field_type: index_of_schema(create_index.field_schema).0,
                    field_index_params: index_of_schema(create_index.field_schema).1,
                    ordering,
                },
            ),
        }),
{
    let (field_type, field_index_params) = match create_index.field_schema {
        None => (None, None),
        Some(PayloadFieldSchema::FieldType(field_type)) => (
            Some(
                match field_type {
                    PayloadSchemaType::Keyword => FieldType::Keyword,
                    PayloadSchemaType::Integer => FieldType::Integer,
                    PayloadSchemaType::Float => FieldType::Float,
                    PayloadSchemaType::Geo => FieldType::Geo,
                    PayloadSchemaType::Text => FieldType::Text,
                },
            ),
            None,
        ),
        Some(PayloadFieldSchema::FieldParams(field_params)) => match field_params {
            PayloadSchemaParams::Text(text_index_params) => (
                Some(FieldType::Text),
                Some(PayloadIndexParams::TextIndexParams(text_index_params)),
            ),
        },
    };
    CreateFieldIndexCollectionInternal {
        shard_id,
        create_field_index_collection: Some(
            CreateFieldIndexCollection {
                collection_name,
                wait: Some(wait),
                field_name: create_index.field_name,
                field_type,
                field_index_params,
                ordering,
            },
        ),
    }
}

/// The message that drops the index of a payload field.
pub fn internal_delete_index(
    shard_id: Option<ShardId>,
    collection_name: String,
    delete_index: String,
    wait: bool,
    ordering: Option<WriteOrdering>,
) -> (message: DeleteFieldIndexCollectionInternal)
    ensures
        message == (DeleteFieldIndexCollectionInternal {
            shard_id,
            delete_field_index_collection: Some(
                DeleteFieldIndexCollection {
                    collection_name,
                    wait: Some(wait),
                    field_name: delete_index,
                    ordering,
                },
            ),
        }),
{
    DeleteFieldIndexCollectionInternal {
        shard_id,
        delete_field_index_collection: Some(
            DeleteFieldIndexCollection {
                collection_name,
                wait: Some(wait),
                field_name: delete_index,
                ordering,
            },
        ),
    }
}

} // verus!
