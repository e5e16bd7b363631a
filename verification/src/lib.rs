//! Glenside: a tensor program language whose e-graph analysis infers the
//! shapes of tensors and of access patterns over them.
pub mod text;
pub mod decimal;
pub mod operators;
pub mod range_set;
pub mod data;
pub mod dims;
pub mod language;
pub mod tensor_ops;
pub mod access_ops;
pub mod relay_ops;
pub mod analysis;
pub mod merge;
pub mod expr;
pub mod laws;
pub mod shape_laws;
