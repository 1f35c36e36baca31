//! Schema rewriting of streaming sink plans, and the `map_agg` aggregate.

pub mod catalog;
pub mod change;
pub mod checks;
pub mod columns;
pub mod error;
pub mod laws;
pub mod map_agg;
pub mod map_value;
pub mod plan;
pub mod rewriter;
pub mod rules;
pub mod text;
