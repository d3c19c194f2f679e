//! A small static-analysis engine for syntax trees of a C-family scripting
//! language. The tree, a precomputed reachability oracle and position-keyed
//! comment lookups are supplied by the host; the analyses here walk the tree
//! and report suspicious-but-legal patterns as diagnostics.

pub mod ast;
pub mod context;
pub mod getter_return;
pub mod laws;
pub mod no_async_promise_executor;
pub mod no_cond_assign;
pub mod no_fallthrough;
pub mod text;
