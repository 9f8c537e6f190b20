//! Rewriting of syntax trees: the reducer's hooks and the director that walks the tree.
pub mod canonicalization;
pub mod circuit_flag;
pub mod idempotence;
pub mod order;
pub mod reconstructing_director;
pub mod reconstructing_reducer;
pub mod resolution_keeps;
pub mod resolution_settled;
pub mod resolution_spans;
pub mod self_resolver;
pub mod settled;
pub mod spans_kept;
pub mod type_inference_combiner;
