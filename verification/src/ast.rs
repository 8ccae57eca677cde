//! Syntax-tree data types.
pub mod pl;
pub mod rq;
