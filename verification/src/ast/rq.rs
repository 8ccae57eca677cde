//! The relational query: the resolved form of a query, in which every column
//! and table is known by an id.
pub mod fold;
pub mod laws;
pub mod view;

use crate::ast::pl::{
    BinOp, ColumnSort, InterpolateItem, JoinSide, Literal, Range, SwitchCase, UnOp, WindowFrame,
};
use vstd::prelude::*;

verus! {

/// Column id.
#[derive(Debug, Clone, Copy, PartialEq, Eq, Hash)]
pub struct CId(pub usize);

/// Table id.
#[derive(Debug, Clone, Copy, PartialEq, Eq, Hash)]
pub struct TId(pub usize);

/// What is known of a column of a relation.
#[derive(Debug, Clone, PartialEq, Eq)]
pub enum RelationColumn {
    /// A single column, which may have a name.
    Single(Option<String>),
    /// Any number of columns that this query does not know of.
    Wildcard,
}

/// What a query says of itself.
#[derive(Debug, Clone, PartialEq, Eq)]
pub struct QueryDef {
    pub version: Option<String>,
    pub other: Vec<(String, String)>,
}

/// A relation that is written out in the query.
#[derive(Debug, Clone, PartialEq, Eq)]
pub struct RelationLiteral {
    pub columns: Vec<String>,
    pub rows: Vec<Vec<Literal>>,
}

#[derive(Debug, PartialEq, Eq)]
pub struct Expr {
    pub kind: ExprKind,
}

#[derive(Debug, PartialEq, Eq)]
pub enum ExprKind {
    ColumnRef(CId),
    Literal(Literal),
    Binary { left: Box<Expr>, op: BinOp, right: Box<Expr> },
    Unary { op: UnOp, expr: Box<Expr> },
    SString(Vec<InterpolateItem<Expr>>),
    FString(Vec<InterpolateItem<Expr>>),
    Switch(Vec<SwitchCase<Expr>>),
    BuiltInFunction { name: String, args: Vec<Expr> },
}

/// A use of a table: where it comes from, and the id that each of its
/// columns has in the relation that uses it.
#[derive(Debug, Clone, PartialEq, Eq)]
pub struct TableRef {
    pub source: TId,
    pub columns: Vec<(RelationColumn, CId)>,
    pub name: Option<String>,
}

#[derive(Debug, PartialEq, Eq)]
pub struct Window {
    pub frame: WindowFrame<Expr>,
    pub partition: Vec<CId>,
    pub sort: Vec<ColumnSort<CId>>,
}

/// A column that is computed from others.
#[derive(Debug, PartialEq, Eq)]
pub struct Compute {
    pub id: CId,
    pub expr: Expr,
    pub window: Option<Window>,
    pub is_aggregation: bool,
}

#[derive(Debug, PartialEq, Eq)]
pub struct Take {
    pub range: Range<Expr>,
    pub partition: Vec<CId>,
    pub sort: Vec<ColumnSort<CId>>,
}

/// One stage of a pipeline.
#[derive(Debug, PartialEq, Eq)]
pub enum Transform {
    From(TableRef),
    Compute(Compute),
    Select(Vec<CId>),
    Filter(Expr),
    Aggregate { partition: Vec<CId>, compute: Vec<CId> },
    Sort(Vec<ColumnSort<CId>>),
    Take(Take),
    Join { side: JoinSide, with: TableRef, filter: Expr },
    Append(TableRef),
    Unique,
}

#[derive(Debug, PartialEq, Eq)]
pub enum RelationKind {
    ExternRef(TableRef),
    Pipeline(Vec<Transform>),
    Literal(RelationLiteral),
    SString(Vec<InterpolateItem<Expr>>),
}

#[derive(Debug, PartialEq, Eq)]
pub struct Relation {
    pub kind: RelationKind,
    /// What is known of the columns; no fold looks into it.
    pub columns: Vec<RelationColumn>,
}

#[derive(Debug, PartialEq, Eq)]
pub struct TableDecl {
    pub id: TId,
    pub name: Option<String>,
    pub relation: Relation,
}

#[derive(Debug, PartialEq, Eq)]
pub struct Query {
    pub def: QueryDef,
    pub tables: Vec<TableDecl>,
    pub relation: Relation,
}

} // verus!
