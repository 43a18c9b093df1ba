use vector_data::batch::has_uniform_lists;
use vector_data::batch::lists_have_len;
use vector_data::batch::transpose_map_into_named_vector;
use vector_data::batch::BatchVectorStruct;
use vector_data::name_map::NameMap;
use vector_data::named_vectors::NamedVectors;
use vector_data::sparse_vector::SparseVector;
use vector_data::validation::Validate;
use vector_data::validation::ValidationErrors;
use vector_data::vectors::Vector;
use vector_data::vectors::VectorRef;

fn row_of(values: &[f32]) -> Vec<u32> {
    values.iter().map(|v| v.to_bits()).collect()
}

fn dense(values: &[f32]) -> Vector {
    Vector::Dense(row_of(values))
}

fn sparse(indices: &[u32], values: &[f32]) -> Vector {
    Vector::Sparse(SparseVector { indices: indices.to_vec(), values: row_of(values) })
}

fn lists(entries: Vec<(&str, Vec<Vector>)>) -> NameMap<Vec<Vector>> {
    let mut map = NameMap::new();
    for (name, list) in entries {
        map.insert(name.to_string(), list);
    }
    map
}

fn collection(entries: Vec<(&str, Vector)>) -> NamedVectors<'static> {
    let mut vectors = NamedVectors::new();
    for (name, vector) in entries {
        vectors.insert(name.to_string(), vector);
    }
    vectors
}

#[test]
fn lists_by_name_become_one_collection_per_point() {
    let batch = BatchVectorStruct::Multi(lists(vec![
        ("image", vec![dense(&[1.0]), dense(&[2.0]), dense(&[3.0])]),
        ("text", vec![sparse(&[1], &[0.1]), sparse(&[2], &[0.2]), sparse(&[3], &[0.3])]),
    ]));
    let all = batch.into_all_vectors(3);
    assert_eq!(
        all,
        vec![
            collection(vec![("image", dense(&[1.0])), ("text", sparse(&[1], &[0.1]))]),
            collection(vec![("image", dense(&[2.0])), ("text", sparse(&[2], &[0.2]))]),
            collection(vec![("image", dense(&[3.0])), ("text", sparse(&[3], &[0.3]))]),
        ]
    );
}

#[test]
fn every_collection_holds_every_name() {
    let batch = BatchVectorStruct::Multi(lists(vec![
        ("a", vec![dense(&[1.0]), dense(&[2.0])]),
        ("b", vec![dense(&[3.0]), dense(&[4.0])]),
        ("c", vec![dense(&[5.0]), dense(&[6.0])]),
    ]));
    let all = batch.into_all_vectors(2);
    assert_eq!(all.len(), 2);
    for point in all.iter() {
        assert_eq!(point.len(), 3);
        assert!(point.contains_key("a"));
        assert!(point.contains_key("b"));
        assert!(point.contains_key("c"));
    }
    let expected = row_of(&[4.0]);
    assert_eq!(all[1].get("b"), Some(VectorRef::Dense(expected.as_slice())));
    let expected = row_of(&[5.0]);
    assert_eq!(all[0].get("c"), Some(VectorRef::Dense(expected.as_slice())));
}

#[test]
fn one_list_by_name_becomes_collections_of_one_vector() {
    let batch = BatchVectorStruct::Multi(lists(vec![("a", vec![dense(&[1.0]), dense(&[2.0])])]));
    let all = batch.into_all_vectors(2);
    assert_eq!(
        all,
        vec![collection(vec![("a", dense(&[1.0]))]), collection(vec![("a", dense(&[2.0]))])]
    );
}

#[test]
fn no_list_at_all_gives_an_empty_collection_per_point() {
    let batch = BatchVectorStruct::Multi(NameMap::new());
    let all = batch.into_all_vectors(4);
    assert_eq!(all.len(), 4);
    for point in all.iter() {
        assert!(point.is_empty());
        assert_eq!(point.len(), 0);
    }
}

#[test]
fn no_list_and_no_point_give_no_collection() {
    let batch = BatchVectorStruct::Multi(NameMap::new());
    assert_eq!(batch.into_all_vectors(0), vec![]);
}

#[test]
fn lists_without_vectors_give_no_collection() {
    let batch = BatchVectorStruct::Multi(lists(vec![("a", vec![]), ("b", vec![])]));
    assert_eq!(batch.into_all_vectors(0), vec![]);
}

#[test]
fn unnamed_vectors_become_default_named_collections_in_order() {
    let batch = BatchVectorStruct::Single(vec![row_of(&[1.0, 2.0]), row_of(&[3.0, 4.0])]);
    let all = batch.into_all_vectors(2);
    assert_eq!(
        all,
        vec![
            collection(vec![("", dense(&[1.0, 2.0]))]),
            collection(vec![("", dense(&[3.0, 4.0]))]),
        ]
    );
}

#[test]
fn unnamed_vectors_state_their_own_number_of_points() {
    let batch = BatchVectorStruct::Single(vec![row_of(&[1.0]), row_of(&[2.0]), row_of(&[3.0])]);
    assert_eq!(batch.into_all_vectors(1).len(), 3);
    let batch = BatchVectorStruct::Single(vec![]);
    assert_eq!(batch.into_all_vectors(5).len(), 0);
}

#[test]
fn transposition_needs_no_number_of_points() {
    let all = transpose_map_into_named_vector(lists(vec![
        ("a", vec![dense(&[1.0]), dense(&[2.0])]),
        ("b", vec![dense(&[3.0]), dense(&[4.0])]),
    ]));
    assert_eq!(
        all,
        vec![
            collection(vec![("a", dense(&[1.0])), ("b", dense(&[3.0]))]),
            collection(vec![("a", dense(&[2.0])), ("b", dense(&[4.0]))]),
        ]
    );
    assert_eq!(transpose_map_into_named_vector(NameMap::new()), vec![]);
}

#[test]
fn a_batch_is_made_from_a_list_of_dense_vectors() {
    match BatchVectorStruct::from(vec![row_of(&[1.0]), row_of(&[2.0])]) {
        BatchVectorStruct::Single(list) => assert_eq!(list, vec![row_of(&[1.0]), row_of(&[2.0])]),
        BatchVectorStruct::Multi(_) => panic!("a list of dense vectors is a batch without names"),
    }
}

#[test]
fn a_batch_of_unnamed_vectors_is_always_valid() {
    assert_eq!(BatchVectorStruct::Single(vec![row_of(&[1.0]), vec![]]).validate(), Ok(()));
}

#[test]
fn a_batch_by_name_is_valid_when_every_vector_is() {
    let batch = BatchVectorStruct::Multi(lists(vec![
        ("a", vec![dense(&[1.0]), sparse(&[1, 2], &[1.0, 2.0])]),
        ("b", vec![]),
    ]));
    assert_eq!(batch.validate(), Ok(()));
    assert_eq!(BatchVectorStruct::Multi(NameMap::new()).validate(), Ok(()));
}

#[test]
fn a_batch_by_name_reports_the_findings_of_all_its_vectors() {
    let batch = BatchVectorStruct::Multi(lists(vec![
        ("a", vec![dense(&[1.0]), sparse(&[2, 1], &[1.0, 2.0])]),
        ("b", vec![sparse(&[1], &[1.0]), sparse(&[1, 2], &[1.0])]),
    ]));
    assert_eq!(batch.validate(), Err(ValidationErrors { values_length: true, indices_order: true }));
    let batch = BatchVectorStruct::Multi(lists(vec![
        ("a", vec![dense(&[1.0])]),
        ("b", vec![sparse(&[1, 1], &[1.0, 2.0])]),
    ]));
    assert_eq!(
        batch.validate(),
        Err(ValidationErrors { values_length: false, indices_order: true })
    );
}

#[test]
fn a_batch_fits_the_points_it_has_vectors_for() {
    let batch = BatchVectorStruct::Multi(lists(vec![
        ("a", vec![dense(&[1.0]), dense(&[2.0])]),
        ("b", vec![dense(&[3.0]), dense(&[4.0])]),
    ]));
    assert!(batch.fits(2));
    assert!(!batch.fits(1));
    assert!(!batch.fits(3));
    let ragged = BatchVectorStruct::Multi(lists(vec![
        ("a", vec![dense(&[1.0]), dense(&[2.0])]),
        ("b", vec![dense(&[3.0])]),
    ]));
    assert!(!ragged.fits(1));
    assert!(!ragged.fits(2));
}

#[test]
fn a_batch_without_names_fits_any_number_of_points() {
    let batch = BatchVectorStruct::Multi(NameMap::new());
    assert!(batch.fits(0));
    assert!(batch.fits(7));
}

#[test]
fn a_batch_of_unnamed_vectors_fits_any_number_of_points() {
    let batch = BatchVectorStruct::Single(vec![row_of(&[1.0])]);
    assert!(batch.fits(0));
    assert!(batch.fits(1));
    assert!(batch.fits(2));
}

#[test]
fn lists_are_uniform_when_they_have_one_length() {
    assert!(has_uniform_lists(&NameMap::new()));
    assert!(has_uniform_lists(&lists(vec![("a", vec![])])));
    assert!(has_uniform_lists(&lists(vec![
        ("a", vec![dense(&[1.0]), dense(&[2.0])]),
        ("b", vec![dense(&[3.0]), dense(&[4.0])]),
    ])));
    assert!(!has_uniform_lists(&lists(vec![
        ("a", vec![dense(&[1.0]), dense(&[2.0])]),
        ("b", vec![dense(&[3.0])]),
    ])));
    assert!(!has_uniform_lists(&lists(vec![("a", vec![]), ("b", vec![dense(&[3.0])])])));
}

#[test]
fn lists_have_a_length_when_each_has_it() {
    let map = lists(vec![("a", vec![dense(&[1.0])]), ("b", vec![dense(&[3.0])])]);
    assert!(lists_have_len(&map, 1));
    assert!(!lists_have_len(&map, 0));
    assert!(!lists_have_len(&map, 2));
    assert!(lists_have_len(&NameMap::new(), 5));
}

#[test]
fn a_cloned_batch_is_transposed_alike() {
    let batch = BatchVectorStruct::Multi(lists(vec![
        ("a", vec![dense(&[1.0]), sparse(&[1], &[2.0])]),
    ]));
    assert_eq!(batch.clone().into_all_vectors(2), batch.into_all_vectors(2));
    let batch = BatchVectorStruct::Single(vec![row_of(&[1.0]), row_of(&[2.0])]);
    assert_eq!(batch.clone().into_all_vectors(2), batch.into_all_vectors(2));
}
