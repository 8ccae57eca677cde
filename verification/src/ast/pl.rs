//! Types shared with the pipeline-language tree.
pub mod ident;

use vstd::prelude::*;

verus! {

/// A constant of the query language.
#[derive(Debug, Clone, PartialEq, Eq)]
pub enum Literal {
    Null,
    Boolean(bool),
    Integer(i64),
    String(String),
}

#[derive(Debug, Clone, Copy, PartialEq, Eq)]
pub enum BinOp {
    Mul,
    Div,
    Mod,
    Add,
    Sub,
    Eq,
    Ne,
    Gt,
    Lt,
    Gte,
    Lte,
    And,
    Or,
    Coalesce,
}

#[derive(Debug, Clone, Copy, PartialEq, Eq)]
pub enum UnOp {
    Neg,
    Not,
}

#[derive(Debug, Clone, Copy, PartialEq, Eq)]
pub enum JoinSide {
    Inner,
    Left,
    Right,
    Full,
}

#[derive(Debug, Clone, Copy, PartialEq, Eq)]
pub enum SortDirection {
    Asc,
    Desc,
}

#[derive(Debug, Clone, Copy, PartialEq, Eq)]
pub enum WindowKind {
    Rows,
    Range,
}

/// Inclusive bounds, each of which may be left open.
#[derive(Debug, Clone, PartialEq, Eq)]
pub struct Range<T> {
    pub start: Option<T>,
    pub end: Option<T>,
}

#[derive(Debug, Clone, PartialEq, Eq)]
pub struct WindowFrame<T> {
    pub kind: WindowKind,
    pub range: Range<T>,
}

#[derive(Debug, Clone, PartialEq, Eq)]
pub struct ColumnSort<T> {
    pub column: T,
    pub direction: SortDirection,
}

#[derive(Debug, Clone, PartialEq, Eq)]
pub struct SwitchCase<T> {
    pub condition: T,
    pub value: T,
}

/// A fragment of an interpolated string: plain text, or an expression whose
/// value is put in.
#[derive(Debug, Clone, PartialEq, Eq)]
pub enum InterpolateItem<T> {
    String(String),
    Expr(Box<T>),
}

} // verus!
