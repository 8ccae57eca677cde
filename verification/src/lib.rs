//! The relational-query intermediate representation of a query compiler:
//! qualified names, the node types of a resolved query, and the fold that
//! every compiler pass is written against.
pub mod ast;
