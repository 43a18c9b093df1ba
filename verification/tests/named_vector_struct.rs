use vector_data::named_vector_struct::Named;
use vector_data::named_vector_struct::NamedSparseVector;
use vector_data::named_vector_struct::NamedVector;
use vector_data::named_vector_struct::NamedVectorStruct;
use vector_data::sparse_vector::SparseVector;
use vector_data::validation::Validate;
use vector_data::validation::ValidationErrors;
use vector_data::vectors::Vector;
use vector_data::vectors::VectorRef;

fn bits_of(values: &[f32]) -> Vec<u32> {
    values.iter().map(|v| v.to_bits()).collect()
}

fn sparse_with(indices: &[u32], values: &[f32]) -> SparseVector {
    SparseVector { indices: indices.to_vec(), values: bits_of(values) }
}

#[test]
fn the_unnamed_form_targets_the_default_name() {
    let named = NamedVectorStruct::Default(bits_of(&[1.0]));
    assert_eq!(named.get_name(), "");
}

#[test]
fn the_named_forms_target_the_name_they_carry() {
    let dense =
        NamedVectorStruct::Named(NamedVector { name: "image".to_string(), vector: bits_of(&[1.0]) });
    assert_eq!(dense.get_name(), "image");
    let sparse = NamedVectorStruct::Sparse(NamedSparseVector {
        name: "text".to_string(),
        vector: sparse_with(&[1], &[1.0]),
    });
    assert_eq!(sparse.get_name(), "text");
}

#[test]
fn an_empty_name_that_is_carried_is_given_back() {
    let dense = NamedVectorStruct::Named(NamedVector { name: String::new(), vector: vec![] });
    assert_eq!(dense.get_name(), "");
    let sparse = NamedVectorStruct::Sparse(NamedSparseVector {
        name: String::new(),
        vector: sparse_with(&[], &[]),
    });
    assert_eq!(sparse.get_name(), "");
}

#[test]
fn new_from_vector_picks_the_form_of_the_vector() {
    let named = NamedVectorStruct::new_from_vector(Vector::Dense(bits_of(&[1.0])), "a".to_string());
    match named {
        NamedVectorStruct::Named(v) => {
            assert_eq!(v.name, "a");
            assert_eq!(v.vector, bits_of(&[1.0]));
        }
        _ => panic!("a dense vector must give the named dense form"),
    }
    let named = NamedVectorStruct::new_from_vector(
        Vector::Sparse(sparse_with(&[2], &[1.0])),
        "b".to_string(),
    );
    match named {
        NamedVectorStruct::Sparse(v) => {
            assert_eq!(v.name, "b");
            assert_eq!(v.vector, sparse_with(&[2], &[1.0]));
        }
        _ => panic!("a sparse vector must give the named sparse form"),
    }
}

#[test]
fn get_vector_borrows_the_vector_of_each_form() {
    let components = bits_of(&[1.0, 2.0]);
    let pairs = sparse_with(&[2], &[1.0]);
    let unnamed = NamedVectorStruct::Default(components.clone());
    assert_eq!(unnamed.get_vector(), VectorRef::Dense(components.as_slice()));
    let dense =
        NamedVectorStruct::Named(NamedVector { name: "a".to_string(), vector: components.clone() });
    assert_eq!(dense.get_vector(), VectorRef::Dense(components.as_slice()));
    let sparse = NamedVectorStruct::Sparse(NamedSparseVector {
        name: "b".to_string(),
        vector: pairs.clone(),
    });
    assert_eq!(sparse.get_vector(), VectorRef::Sparse(&pairs));
}

#[test]
fn to_vector_gives_the_vector_of_each_form() {
    let unnamed = NamedVectorStruct::Default(bits_of(&[1.0]));
    assert_eq!(unnamed.to_vector(), Vector::Dense(bits_of(&[1.0])));
    let dense =
        NamedVectorStruct::Named(NamedVector { name: "a".to_string(), vector: bits_of(&[2.0]) });
    assert_eq!(dense.to_vector(), Vector::Dense(bits_of(&[2.0])));
    let sparse = NamedVectorStruct::Sparse(NamedSparseVector {
        name: "b".to_string(),
        vector: sparse_with(&[2], &[1.0]),
    });
    assert_eq!(sparse.to_vector(), Vector::Sparse(sparse_with(&[2], &[1.0])));
}

#[test]
fn a_vector_is_made_from_each_form() {
    let unnamed = NamedVectorStruct::Default(bits_of(&[1.0]));
    assert_eq!(Vector::from(unnamed), Vector::Dense(bits_of(&[1.0])));
    let dense =
        NamedVectorStruct::Named(NamedVector { name: "a".to_string(), vector: bits_of(&[2.0]) });
    assert_eq!(Vector::from(dense), Vector::Dense(bits_of(&[2.0])));
    let sparse = NamedVectorStruct::Sparse(NamedSparseVector {
        name: "b".to_string(),
        vector: sparse_with(&[2], &[1.0]),
    });
    assert_eq!(Vector::from(sparse), Vector::Sparse(sparse_with(&[2], &[1.0])));
}

#[test]
fn each_form_is_made_from_its_content() {
    match NamedVectorStruct::from(bits_of(&[1.0])) {
        NamedVectorStruct::Default(v) => assert_eq!(v, bits_of(&[1.0])),
        _ => panic!("components alone must give the unnamed form"),
    }
    match NamedVectorStruct::from(NamedVector { name: "a".to_string(), vector: bits_of(&[1.0]) }) {
        NamedVectorStruct::Named(v) => assert_eq!(v.name, "a"),
        _ => panic!("a named dense vector must give the named dense form"),
    }
    let sparse = NamedSparseVector { name: "b".to_string(), vector: sparse_with(&[2], &[1.0]) };
    match NamedVectorStruct::from(sparse) {
        NamedVectorStruct::Sparse(v) => assert_eq!(v.name, "b"),
        _ => panic!("a named sparse vector must give the named sparse form"),
    }
}

#[test]
fn the_dense_forms_are_always_valid() {
    assert_eq!(NamedVectorStruct::Default(vec![]).validate(), Ok(()));
    let dense = NamedVectorStruct::Named(NamedVector { name: String::new(), vector: vec![] });
    assert_eq!(dense.validate(), Ok(()));
}

#[test]
fn the_sparse_form_is_validated_by_the_rules_of_its_vector() {
    let good = NamedVectorStruct::Sparse(NamedSparseVector {
        name: "b".to_string(),
        vector: sparse_with(&[1, 2], &[1.0, 2.0]),
    });
    assert_eq!(good.validate(), Ok(()));
    let unsorted = NamedVectorStruct::Sparse(NamedSparseVector {
        name: "b".to_string(),
        vector: sparse_with(&[2, 1], &[1.0, 2.0]),
    });
    assert_eq!(
        unsorted.validate(),
        Err(ValidationErrors { values_length: false, indices_order: true })
    );
    let short = NamedSparseVector { name: "b".to_string(), vector: sparse_with(&[1, 2], &[1.0]) };
    assert_eq!(
        short.validate(),
        Err(ValidationErrors { values_length: true, indices_order: false })
    );
}

#[test]
fn a_clone_of_each_form_has_the_same_name_and_vector() {
    let unnamed = NamedVectorStruct::Default(bits_of(&[1.0]));
    assert_eq!(unnamed.clone().get_name(), "");
    assert_eq!(unnamed.clone().to_vector(), unnamed.to_vector());
    let dense =
        NamedVectorStruct::Named(NamedVector { name: "a".to_string(), vector: bits_of(&[2.0]) });
    assert_eq!(dense.clone().get_name(), "a");
    assert_eq!(dense.clone().to_vector(), dense.to_vector());
    let sparse = NamedVectorStruct::Sparse(NamedSparseVector {
        name: "b".to_string(),
        vector: sparse_with(&[2], &[1.0]),
    });
    assert_eq!(sparse.clone().get_name(), "b");
    assert_eq!(sparse.clone().to_vector(), sparse.to_vector());
}
