//! The rules of the operators that take part in a schema change.

pub mod batch_plan;
pub mod merge;
pub mod sink;
pub mod stream_scan;
