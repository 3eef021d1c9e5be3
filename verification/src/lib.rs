//! Statement node model for a tree-walking interpreter: a closed set of
//! statement shapes and the dispatch mechanism by which downstream passes
//! (an evaluator, a resolver, a pretty-printer) operate on them without
//! modifying the node definitions themselves.

pub mod errors;
pub mod expr;
pub mod laws;
pub mod stmt;
pub mod tokens;
