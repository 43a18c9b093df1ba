//! Data model of a vector search engine: dense and sparse vectors, named
//! vector collections, the point-level and batch-level exchange shapes, and
//! the query shapes evaluated against stored vectors.

pub mod operation_error;
pub mod equality;
pub mod name_map;
pub mod validation;
pub mod sparse_vector;
pub mod vectors;
pub mod named_vectors;
pub mod vector_struct;
pub mod named_vector_struct;
pub mod batch;
pub mod query;
pub mod operations;
pub mod messages;
pub mod point_conversions;
pub mod conversions;
