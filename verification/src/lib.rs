//! Native backend operations for a desktop UI shell: a filesystem existence
//! probe and an HTTP relay that folds every outcome of a POST exchange into a
//! normalized `{status, text}` envelope, serialized as JSON text.

pub mod envelope;
pub mod headers;
pub mod json;
pub mod probe;
