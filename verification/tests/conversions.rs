use vector_data::batch::BatchVectorStruct;
use vector_data::point_conversions::batch_into_points;
use vector_data::conversions::internal_clear_payload;
use vector_data::conversions::internal_clear_payload_by_filter;
use vector_data::conversions::internal_create_index;
use vector_data::conversions::internal_delete_index;
use vector_data::conversions::internal_delete_payload;
use vector_data::conversions::internal_delete_points;
use vector_data::conversions::internal_delete_points_by_filter;
use vector_data::conversions::internal_set_payload;
use vector_data::conversions::internal_sync_points;
use vector_data::conversions::internal_upsert_points;
use vector_data::point_conversions::is_all_dense;
use vector_data::point_conversions::is_batch_convertible;
use vector_data::point_conversions::is_convertible;
use vector_data::point_conversions::points_into_messages;
use vector_data::conversions::select_points;
use vector_data::messages;
use vector_data::messages::FieldType;
use vector_data::messages::PayloadIndexParams;
use vector_data::messages::PointsIdsList;
use vector_data::messages::PointsSelector;
use vector_data::messages::PointsSelectorOneOf;
use vector_data::name_map::NameMap;
use vector_data::point_conversions::MISALIGNED_BATCH;
use vector_data::point_conversions::SPARSE_DEFAULT_VECTOR;
use vector_data::operations::Batch;
use vector_data::operations::CollectionError;
use vector_data::operations::CreateIndex;
use vector_data::operations::DeletePayload;
use vector_data::operations::PayloadFieldSchema;
use vector_data::operations::PayloadSchemaParams;
use vector_data::operations::PayloadSchemaType;
use vector_data::operations::PointIdType;
use vector_data::operations::PointInsertOperations;
use vector_data::operations::PointStruct;
use vector_data::operations::PointSyncOperation;
use vector_data::operations::SetPayload;
use vector_data::operations::WriteOrdering;
use vector_data::sparse_vector::SparseVector;
use vector_data::vector_struct::VectorStruct;
use vector_data::vectors::Vector;

type Filter = &'static str;
type Payload = &'static str;

fn point_bits(values: &[f32]) -> Vec<u32> {
    values.iter().map(|v| v.to_bits()).collect()
}

fn by_ids(ids: Vec<PointIdType>) -> Option<PointsSelector<Filter>> {
    Some(PointsSelector {
        points_selector_one_of: Some(PointsSelectorOneOf::Points(PointsIdsList { ids })),
    })
}

fn by_filter(filter: Filter) -> Option<PointsSelector<Filter>> {
    Some(PointsSelector { points_selector_one_of: Some(PointsSelectorOneOf::Filter(filter)) })
}

fn some_ids() -> Vec<PointIdType> {
    vec![PointIdType::NumId(1), PointIdType::Uuid(0x1234_5678_9abc_def0_1234_5678_9abc_def0)]
}

#[test]
fn delete_points_selects_by_identifier() {
    let message = internal_delete_points::<Filter>(
        Some(3),
        "books".to_string(),
        some_ids(),
        true,
        Some(WriteOrdering::Strong),
    );
    assert_eq!(message.shard_id, Some(3));
    let inner = message.delete_points.unwrap();
    assert_eq!(inner.collection_name, "books");
    assert_eq!(inner.wait, Some(true));
    assert_eq!(inner.points, by_ids(some_ids()));
    assert_eq!(inner.ordering, Some(WriteOrdering::Strong));
}

#[test]
fn delete_points_by_filter_selects_by_condition() {
    let message =
        internal_delete_points_by_filter(None, "books".to_string(), "year < 1900", false, None);
    assert_eq!(message.shard_id, None);
    let inner = message.delete_points.unwrap();
    assert_eq!(inner.collection_name, "books");
    assert_eq!(inner.wait, Some(false));
    assert_eq!(inner.points, by_filter("year < 1900"));
    assert_eq!(inner.ordering, None);
}

#[test]
fn clear_payload_selects_by_identifier() {
    let message = internal_clear_payload::<Filter>(
        Some(0),
        "books".to_string(),
        some_ids(),
        false,
        Some(WriteOrdering::Weak),
    );
    assert_eq!(message.shard_id, Some(0));
    let inner = message.clear_payload_points.unwrap();
    assert_eq!(inner.collection_name, "books");
    assert_eq!(inner.wait, Some(false));
    assert_eq!(inner.points, by_ids(some_ids()));
    assert_eq!(inner.ordering, Some(WriteOrdering::Weak));
}

#[test]
fn clear_payload_of_no_point_selects_an_empty_list() {
    let message = internal_clear_payload::<Filter>(None, "books".to_string(), vec![], true, None);
    assert_eq!(message.clear_payload_points.unwrap().points, by_ids(vec![]));
}

#[test]
fn clear_payload_by_filter_selects_by_condition() {
    let message = internal_clear_payload_by_filter(
        Some(9),
        "books".to_string(),
        "lang = fr",
        true,
        Some(WriteOrdering::Medium),
    );
    assert_eq!(message.shard_id, Some(9));
    let inner = message.clear_payload_points.unwrap();
    assert_eq!(inner.wait, Some(true));
    assert_eq!(inner.points, by_filter("lang = fr"));
    assert_eq!(inner.ordering, Some(WriteOrdering::Medium));
}

#[test]
fn set_payload_prefers_the_list_of_identifiers_to_the_condition() {
    let set_payload: SetPayload<Payload, Filter> =
        SetPayload { payload: "{\"read\": true}", points: Some(some_ids()), filter: Some("any") };
    let message = internal_set_payload(Some(1), "books".to_string(), set_payload, true, None);
    assert_eq!(message.shard_id, Some(1));
    let inner = message.set_payload_points.unwrap();
    assert_eq!(inner.collection_name, "books");
    assert_eq!(inner.wait, Some(true));
    assert_eq!(inner.payload, "{\"read\": true}");
    assert_eq!(inner.points_selector, by_ids(some_ids()));
    assert_eq!(inner.points, some_ids());
    assert_eq!(inner.ordering, None);
}

#[test]
fn set_payload_prefers_even_an_empty_list_to_the_condition() {
    let set_payload: SetPayload<Payload, Filter> =
        SetPayload { payload: "{}", points: Some(vec![]), filter: Some("any") };
    let message = internal_set_payload(None, "books".to_string(), set_payload, true, None);
    let inner = message.set_payload_points.unwrap();
    assert_eq!(inner.points_selector, by_ids(vec![]));
    assert_eq!(inner.points, vec![]);
}

#[test]
fn set_payload_falls_back_to_the_condition() {
    let set_payload: SetPayload<Payload, Filter> =
        SetPayload { payload: "{}", points: None, filter: Some("year < 1900") };
    let message = internal_set_payload(
        None,
        "books".to_string(),
        set_payload,
        false,
        Some(WriteOrdering::Strong),
    );
    let inner = message.set_payload_points.unwrap();
    assert_eq!(inner.points_selector, by_filter("year < 1900"));
    assert_eq!(inner.points, vec![]);
    assert_eq!(inner.wait, Some(false));
    assert_eq!(inner.ordering, Some(WriteOrdering::Strong));
}

#[test]
fn set_payload_without_list_or_condition_selects_nothing() {
    let set_payload: SetPayload<Payload, Filter> =
        SetPayload { payload: "{}", points: None, filter: None };
    let message = internal_set_payload(None, "books".to_string(), set_payload, false, None);
    let inner = message.set_payload_points.unwrap();
    assert_eq!(inner.points_selector, None);
    assert_eq!(inner.points, vec![]);
}

#[test]
fn delete_payload_prefers_the_list_of_identifiers_to_the_condition() {
    let delete_payload: DeletePayload<Filter> = DeletePayload {
        keys: vec!["read".to_string(), "rating".to_string()],
        points: Some(some_ids()),
        filter: Some("any"),
    };
    let message = internal_delete_payload(
        Some(2),
        "books".to_string(),
        delete_payload,
        true,
        Some(WriteOrdering::Medium),
    );
    assert_eq!(message.shard_id, Some(2));
    let inner = message.delete_payload_points.unwrap();
    assert_eq!(inner.collection_name, "books");
    assert_eq!(inner.wait, Some(true));
    assert_eq!(inner.keys, vec!["read".to_string(), "rating".to_string()]);
    assert_eq!(inner.points_selector, by_ids(some_ids()));
    assert_eq!(inner.points, some_ids());
    assert_eq!(inner.ordering, Some(WriteOrdering::Medium));
}

#[test]
fn delete_payload_falls_back_to_the_condition() {
    let delete_payload: DeletePayload<Filter> =
        DeletePayload { keys: vec![], points: None, filter: Some("lang = fr") };
    let message = internal_delete_payload(None, "books".to_string(), delete_payload, false, None);
    let inner = message.delete_payload_points.unwrap();
    assert_eq!(inner.keys, Vec::<String>::new());
    assert_eq!(inner.points_selector, by_filter("lang = fr"));
    assert_eq!(inner.points, vec![]);
}

#[test]
fn delete_payload_without_list_or_condition_selects_nothing() {
    let delete_payload: DeletePayload<Filter> =
        DeletePayload { keys: vec!["read".to_string()], points: None, filter: None };
    let message = internal_delete_payload(None, "books".to_string(), delete_payload, false, None);
    let inner = message.delete_payload_points.unwrap();
    assert_eq!(inner.points_selector, None);
    assert_eq!(inner.points, vec![]);
}

#[test]
fn select_points_gives_the_list_twice_or_the_condition_once() {
    let (flat, selector) = select_points(Some(some_ids()), Some("any"));
    assert_eq!(flat, some_ids());
    assert_eq!(selector, by_ids(some_ids()));
    let (flat, selector) = select_points(Some(some_ids()), None::<Filter>);
    assert_eq!(flat, some_ids());
    assert_eq!(selector, by_ids(some_ids()));
    let (flat, selector) = select_points(None, Some("any"));
    assert_eq!(flat, vec![]);
    assert_eq!(selector, by_filter("any"));
    let (flat, selector) = select_points(None, None::<Filter>);
    assert_eq!(flat, vec![]);
    assert_eq!(selector, None);
}

#[test]
fn create_index_without_a_schema_names_no_type() {
    let create_index: CreateIndex<&str> =
        CreateIndex { field_name: "title".to_string(), field_schema: None };
    let message = internal_create_index(Some(1), "books".to_string(), create_index, true, None);
    assert_eq!(message.shard_id, Some(1));
    let inner = message.create_field_index_collection.unwrap();
    assert_eq!(inner.collection_name, "books");
    assert_eq!(inner.wait, Some(true));
    assert_eq!(inner.field_name, "title");
    assert_eq!(inner.field_type, None);
    assert_eq!(inner.field_index_params, None);
    assert_eq!(inner.ordering, None);
}

#[test]
fn create_index_by_type_names_the_type_and_no_parameters() {
    let cases = [
        (PayloadSchemaType::Keyword, FieldType::Keyword),
        (PayloadSchemaType::Integer, FieldType::Integer),
        (PayloadSchemaType::Float, FieldType::Float),
        (PayloadSchemaType::Geo, FieldType::Geo),
        (PayloadSchemaType::Text, FieldType::Text),
    ];
    for (schema_type, field_type) in cases {
        let create_index: CreateIndex<&str> = CreateIndex {
            field_name: "title".to_string(),
            field_schema: Some(PayloadFieldSchema::FieldType(schema_type)),
        };
        let message = internal_create_index(
            None,
            "books".to_string(),
            create_index,
            false,
            Some(WriteOrdering::Weak),
        );
        let inner = message.create_field_index_collection.unwrap();
        assert_eq!(inner.field_type, Some(field_type));
        assert_eq!(inner.field_index_params, None);
        assert_eq!(inner.wait, Some(false));
        assert_eq!(inner.ordering, Some(WriteOrdering::Weak));
    }
}

#[test]
fn create_index_with_text_parameters_names_the_text_type_and_carries_them() {
    let create_index = CreateIndex {
        field_name: "title".to_string(),
        field_schema: Some(PayloadFieldSchema::FieldParams(PayloadSchemaParams::Text(
            "tokenizer = word",
        ))),
    };
    let message = internal_create_index(None, "books".to_string(), create_index, true, None);
    let inner = message.create_field_index_collection.unwrap();
    assert_eq!(inner.field_type, Some(FieldType::Text));
    assert_eq!(
        inner.field_index_params,
        Some(PayloadIndexParams::TextIndexParams("tokenizer = word"))
    );
}

#[test]
fn delete_index_names_the_field() {
    let message = internal_delete_index(
        Some(4),
        "books".to_string(),
        "title".to_string(),
        true,
        Some(WriteOrdering::Strong),
    );
    assert_eq!(message.shard_id, Some(4));
    let inner = message.delete_field_index_collection.unwrap();
    assert_eq!(inner.collection_name, "books");
    assert_eq!(inner.wait, Some(true));
    assert_eq!(inner.field_name, "title");
    assert_eq!(inner.ordering, Some(WriteOrdering::Strong));
}

fn two_points() -> Vec<PointStruct<Payload>> {
    let mut named = NameMap::new();
    named.insert("image".to_string(), Vector::Dense(point_bits(&[3.0])));
    vec![
        PointStruct {
            id: PointIdType::NumId(1),
            vector: VectorStruct::Single(point_bits(&[1.0, 2.0])),
            payload: Some("{\"a\": 1}"),
        },
        PointStruct {
            id: PointIdType::Uuid(77),
            vector: VectorStruct::Multi(named),
            payload: None,
        },
    ]
}

fn two_points_sent() -> Vec<messages::PointStruct<Payload>> {
    let mut named = NameMap::new();
    named.insert("image".to_string(), Vector::Dense(point_bits(&[3.0])));
    vec![
        messages::PointStruct {
            id: Some(PointIdType::NumId(1)),
            vectors: Some(VectorStruct::Single(point_bits(&[1.0, 2.0]))),
            payload: Some("{\"a\": 1}"),
        },
        messages::PointStruct {
            id: Some(PointIdType::Uuid(77)),
            vectors: Some(VectorStruct::Multi(named)),
            payload: None,
        },
    ]
}

#[test]
fn points_are_sent_with_their_identifier_vectors_and_payload() {
    assert_eq!(points_into_messages(two_points()), two_points_sent());
    assert_eq!(points_into_messages::<Payload>(vec![]), vec![]);
}

#[test]
fn sync_points_carries_the_points_and_the_range() {
    let operation = PointSyncOperation {
        from_id: Some(PointIdType::NumId(0)),
        to_id: Some(PointIdType::NumId(100)),
        points: two_points(),
    };
    let message = internal_sync_points(
        Some(5),
        "books".to_string(),
        operation,
        true,
        Some(WriteOrdering::Medium),
    )
    .unwrap();
    assert_eq!(message.shard_id, Some(5));
    let inner = message.sync_points.unwrap();
    assert_eq!(inner.collection_name, "books");
    assert_eq!(inner.wait, Some(true));
    assert_eq!(inner.points, two_points_sent());
    assert_eq!(inner.from_id, Some(PointIdType::NumId(0)));
    assert_eq!(inner.to_id, Some(PointIdType::NumId(100)));
    assert_eq!(inner.ordering, Some(WriteOrdering::Medium));
}

#[test]
fn sync_points_of_an_open_range_without_points() {
    let operation: PointSyncOperation<Payload> =
        PointSyncOperation { from_id: None, to_id: None, points: vec![] };
    let message =
        internal_sync_points(None, "books".to_string(), operation, false, None).unwrap();
    let inner = message.sync_points.unwrap();
    assert_eq!(inner.points, vec![]);
    assert_eq!(inner.from_id, None);
    assert_eq!(inner.to_id, None);
    assert_eq!(inner.wait, Some(false));
}

#[test]
fn upsert_of_a_list_sends_each_point() {
    let message = internal_upsert_points(
        Some(6),
        "books".to_string(),
        PointInsertOperations::PointsList(two_points()),
        true,
        Some(WriteOrdering::Weak),
    )
    .unwrap();
    assert_eq!(message.shard_id, Some(6));
    let inner = message.upsert_points.unwrap();
    assert_eq!(inner.collection_name, "books");
    assert_eq!(inner.wait, Some(true));
    assert_eq!(inner.points, two_points_sent());
    assert_eq!(inner.ordering, Some(WriteOrdering::Weak));
}

#[test]
fn upsert_of_a_batch_of_unnamed_vectors_sends_one_point_per_identifier() {
    let batch = Batch {
        ids: vec![PointIdType::NumId(1), PointIdType::NumId(2)],
        vectors: BatchVectorStruct::Single(vec![point_bits(&[1.0]), point_bits(&[2.0])]),
        payloads: Some(vec![None, Some("{\"b\": 2}")]),
    };
    let message = internal_upsert_points(
        None,
        "books".to_string(),
        PointInsertOperations::PointsBatch(batch),
        false,
        None,
    )
    .unwrap();
    let inner = message.upsert_points.unwrap();
    assert_eq!(
        inner.points,
        vec![
            messages::PointStruct {
                id: Some(PointIdType::NumId(1)),
                vectors: Some(VectorStruct::Single(point_bits(&[1.0]))),
                payload: None,
            },
            messages::PointStruct {
                id: Some(PointIdType::NumId(2)),
                vectors: Some(VectorStruct::Single(point_bits(&[2.0]))),
                payload: Some("{\"b\": 2}"),
            },
        ]
    );
}

#[test]
fn a_batch_by_name_is_transposed_into_points() {
    let mut lists = NameMap::new();
    lists.insert(
        "image".to_string(),
        vec![Vector::Dense(point_bits(&[1.0])), Vector::Dense(point_bits(&[2.0]))],
    );
    lists.insert(
        "text".to_string(),
        vec![
            Vector::Sparse(SparseVector { indices: vec![1], values: point_bits(&[0.5]) }),
            Vector::Sparse(SparseVector { indices: vec![2], values: point_bits(&[0.25]) }),
        ],
    );
    let batch: Batch<Payload> = Batch {
        ids: vec![PointIdType::NumId(10), PointIdType::NumId(20)],
        vectors: BatchVectorStruct::Multi(lists),
        payloads: None,
    };
    let points = batch_into_points(batch).unwrap();
    let mut first = NameMap::new();
    first.insert("image".to_string(), Vector::Dense(point_bits(&[1.0])));
    first.insert(
        "text".to_string(),
        Vector::Sparse(SparseVector { indices: vec![1], values: point_bits(&[0.5]) }),
    );
    let mut second = NameMap::new();
    second.insert("image".to_string(), Vector::Dense(point_bits(&[2.0])));
    second.insert(
        "text".to_string(),
        Vector::Sparse(SparseVector { indices: vec![2], values: point_bits(&[0.25]) }),
    );
    assert_eq!(
        points,
        vec![
            messages::PointStruct {
                id: Some(PointIdType::NumId(10)),
                vectors: Some(VectorStruct::Multi(first)),
                payload: None,
            },
            messages::PointStruct {
                id: Some(PointIdType::NumId(20)),
                vectors: Some(VectorStruct::Multi(second)),
                payload: None,
            },
        ]
    );
}

#[test]
fn a_batch_under_the_default_name_alone_is_sent_as_unnamed_vectors() {
    let mut lists = NameMap::new();
    lists.insert(
        "".to_string(),
        vec![Vector::Dense(point_bits(&[1.0])), Vector::Dense(point_bits(&[2.0]))],
    );
    let batch: Batch<Payload> = Batch {
        ids: vec![PointIdType::NumId(10), PointIdType::NumId(20)],
        vectors: BatchVectorStruct::Multi(lists),
        payloads: None,
    };
    let points = batch_into_points(batch).unwrap();
    assert_eq!(points[0].vectors, Some(VectorStruct::Single(point_bits(&[1.0]))));
    assert_eq!(points[1].vectors, Some(VectorStruct::Single(point_bits(&[2.0]))));
}

#[test]
fn a_batch_without_names_sends_points_with_empty_named_vectors() {
    let batch: Batch<Payload> = Batch {
        ids: vec![PointIdType::NumId(10), PointIdType::NumId(20), PointIdType::NumId(30)],
        vectors: BatchVectorStruct::Multi(NameMap::new()),
        payloads: Some(vec![Some("a"), Some("b"), Some("c")]),
    };
    let points = batch_into_points(batch).unwrap();
    assert_eq!(points.len(), 3);
    for point in points.iter() {
        assert_eq!(point.vectors, Some(VectorStruct::Multi(NameMap::new())));
    }
    assert_eq!(points[0].payload, Some("a"));
    assert_eq!(points[2].payload, Some("c"));
    assert_eq!(points[2].id, Some(PointIdType::NumId(30)));
}

#[test]
fn a_batch_with_fewer_vectors_or_payloads_than_identifiers_leaves_them_out() {
    let batch = Batch {
        ids: vec![PointIdType::NumId(1), PointIdType::NumId(2), PointIdType::NumId(3)],
        vectors: BatchVectorStruct::Single(vec![point_bits(&[1.0]), point_bits(&[2.0])]),
        payloads: Some(vec![Some("a")]),
    };
    let points = batch_into_points(batch).unwrap();
    assert_eq!(points.len(), 3);
    assert_eq!(points[0].vectors, Some(VectorStruct::Single(point_bits(&[1.0]))));
    assert_eq!(points[1].vectors, Some(VectorStruct::Single(point_bits(&[2.0]))));
    assert_eq!(points[2].vectors, None);
    assert_eq!(points[0].payload, Some("a"));
    assert_eq!(points[1].payload, None);
    assert_eq!(points[2].payload, None);
}

#[test]
fn a_batch_with_more_vectors_than_identifiers_ignores_the_rest() {
    let batch: Batch<Payload> = Batch {
        ids: vec![PointIdType::NumId(1)],
        vectors: BatchVectorStruct::Single(vec![point_bits(&[1.0]), point_bits(&[2.0])]),
        payloads: None,
    };
    let points = batch_into_points(batch).unwrap();
    assert_eq!(points.len(), 1);
    assert_eq!(points[0].vectors, Some(VectorStruct::Single(point_bits(&[1.0]))));
}

#[test]
fn an_empty_batch_sends_no_point() {
    let batch: Batch<Payload> =
        Batch { ids: vec![], vectors: BatchVectorStruct::Single(vec![]), payloads: None };
    assert_eq!(batch_into_points(batch), Ok(vec![]));
}

fn sparse_list() -> Vec<Vector> {
    vec![
        Vector::Dense(point_bits(&[1.0])),
        Vector::Sparse(SparseVector { indices: vec![1], values: point_bits(&[0.5]) }),
    ]
}

fn batch_of(ids: usize, entries: Vec<(&str, Vec<Vector>)>) -> Batch<Payload> {
    let mut lists = NameMap::new();
    for (name, list) in entries {
        lists.insert(name.to_string(), list);
    }
    Batch {
        ids: (0..ids).map(|id| PointIdType::NumId(id as u64)).collect(),
        vectors: BatchVectorStruct::Multi(lists),
        payloads: None,
    }
}

#[test]
fn a_list_is_all_dense_without_a_sparse_vector() {
    assert!(is_all_dense(&[]));
    assert!(is_all_dense(&[Vector::Dense(vec![]), Vector::Dense(point_bits(&[1.0]))]));
    assert!(!is_all_dense(&sparse_list()));
}

#[test]
fn an_aligned_batch_by_name_can_be_sent() {
    assert!(is_batch_convertible(&batch_of(2, vec![("a", sparse_list()), ("b", sparse_list())])));
    assert!(is_batch_convertible(&batch_of(2, vec![("a", sparse_list())])));
    assert!(is_batch_convertible(&batch_of(2, vec![("", sparse_list()), ("b", sparse_list())])));
    assert!(is_batch_convertible(&batch_of(3, vec![])));
    assert!(is_batch_convertible(&batch_of(0, vec![("", vec![])])));
}

#[test]
fn a_batch_that_is_not_aligned_cannot_be_sent() {
    assert!(!is_batch_convertible(&batch_of(3, vec![("a", sparse_list())])));
    assert!(!is_batch_convertible(&batch_of(1, vec![("a", sparse_list())])));
    assert!(!is_batch_convertible(&batch_of(0, vec![("", sparse_list())])));
}

#[test]
fn sparse_vectors_under_the_default_name_alone_cannot_be_sent() {
    assert!(!is_batch_convertible(&batch_of(2, vec![("", sparse_list())])));
    let dense_list =
        vec![Vector::Dense(point_bits(&[1.0])), Vector::Dense(point_bits(&[2.0]))];
    assert!(is_batch_convertible(&batch_of(2, vec![("", dense_list)])));
}

#[test]
fn a_batch_of_unnamed_vectors_can_always_be_sent() {
    let batch: Batch<Payload> = Batch {
        ids: vec![PointIdType::NumId(1)],
        vectors: BatchVectorStruct::Single(vec![]),
        payloads: None,
    };
    assert!(is_batch_convertible(&batch));
    assert!(is_convertible(&PointInsertOperations::PointsBatch(batch)));
}

#[test]
fn points_given_one_by_one_can_always_be_sent() {
    assert!(is_convertible(&PointInsertOperations::PointsList(two_points())));
    assert!(!is_convertible(&PointInsertOperations::PointsBatch(batch_of(
        2,
        vec![("", sparse_list())]
    ))));
}

#[test]
fn a_batch_that_is_not_aligned_is_refused() {
    let expected = CollectionError::BadInput { description: MISALIGNED_BATCH.to_string() };
    assert_eq!(
        batch_into_points(batch_of(3, vec![("a", sparse_list())])),
        Err(expected.clone())
    );
    assert_eq!(
        batch_into_points(batch_of(1, vec![("a", sparse_list())])),
        Err(expected.clone())
    );
    assert_eq!(
        batch_into_points(batch_of(2, vec![("a", sparse_list()), ("b", vec![])])),
        Err(expected.clone())
    );
    assert_eq!(batch_into_points(batch_of(0, vec![("", sparse_list())])), Err(expected));
}

#[test]
fn a_batch_of_sparse_vectors_under_the_default_name_alone_is_refused() {
    assert_eq!(
        batch_into_points(batch_of(2, vec![("", sparse_list())])),
        Err(CollectionError::BadInput { description: SPARSE_DEFAULT_VECTOR.to_string() })
    );
}

#[test]
fn the_reasons_for_a_refusal_are_told_apart() {
    assert_eq!(MISALIGNED_BATCH, "number of ids and vectors must be equal");
    assert_eq!(SPARSE_DEFAULT_VECTOR, "a sparse vector needs a name of its own");
}

#[test]
fn upsert_refuses_a_batch_that_cannot_be_sent() {
    let result = internal_upsert_points(
        Some(1),
        "books".to_string(),
        PointInsertOperations::PointsBatch(batch_of(3, vec![("a", sparse_list())])),
        true,
        None,
    );
    assert_eq!(
        result,
        Err(CollectionError::BadInput { description: MISALIGNED_BATCH.to_string() })
    );
    let result = internal_upsert_points(
        Some(1),
        "books".to_string(),
        PointInsertOperations::PointsBatch(batch_of(2, vec![("", sparse_list())])),
        true,
        None,
    );
    assert_eq!(
        result,
        Err(CollectionError::BadInput { description: SPARSE_DEFAULT_VECTOR.to_string() })
    );
}

#[test]
fn upsert_sends_a_batch_under_the_default_name_and_another() {
    let result = internal_upsert_points(
        None,
        "books".to_string(),
        PointInsertOperations::PointsBatch(batch_of(
            2,
            vec![("", sparse_list()), ("b", sparse_list())],
        )),
        true,
        None,
    );
    let points = result.unwrap().upsert_points.unwrap().points;
    assert_eq!(points.len(), 2);
    let vectors = points[1].vectors.clone().unwrap();
    assert_eq!(
        vectors.get(""),
        Some(vector_data::vectors::VectorRef::Sparse(&SparseVector {
            indices: vec![1],
            values: point_bits(&[0.5]),
        }))
    );
}
