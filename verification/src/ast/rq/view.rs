//! The relational query as mathematics: each node with sequences in place of
//! vectors, so that two trees are equal exactly when they hold the same nodes
//! in the same order.
use crate::ast::pl::{
    BinOp, ColumnSort, InterpolateItem, JoinSide, Literal, Range, SwitchCase, UnOp, WindowFrame,
};
use crate::ast::rq::{
    CId, Compute, Expr, ExprKind, Query, QueryDef, Relation, RelationColumn, RelationKind,
    RelationLiteral, TId, TableDecl, TableRef, Take, Transform, Window,
};
use vstd::prelude::*;

verus! {

pub ghost struct ExprV {
    pub kind: ExprKindV,
}

pub ghost enum ExprKindV {
    ColumnRef(CId),
    Literal(Literal),
    Binary { left: Box<ExprV>, op: BinOp, right: Box<ExprV> },
    Unary { op: UnOp, expr: Box<ExprV> },
    SString(Seq<InterpolateItem<ExprV>>),
    FString(Seq<InterpolateItem<ExprV>>),
    Switch(Seq<SwitchCase<ExprV>>),
    BuiltInFunction { name: String, args: Seq<ExprV> },
}

pub ghost struct TableRefV {
    pub source: TId,
    pub columns: Seq<(RelationColumn, CId)>,
    pub name: Option<String>,
}

pub ghost struct WindowV {
    pub frame: WindowFrame<ExprV>,
    pub partition: Seq<CId>,
    pub sort: Seq<ColumnSort<CId>>,
}

pub ghost struct ComputeV {
    pub id: CId,
    pub expr: ExprV,
    pub window: Option<WindowV>,
    pub is_aggregation: bool,
}

pub ghost struct TakeV {
    pub range: Range<ExprV>,
    pub partition: Seq<CId>,
    pub sort: Seq<ColumnSort<CId>>,
}

pub ghost enum TransformV {
    From(TableRefV),
    Compute(ComputeV),
    Select(Seq<CId>),
    Filter(ExprV),
    Aggregate { partition: Seq<CId>, compute: Seq<CId> },
    Sort(Seq<ColumnSort<CId>>),
    Take(TakeV),
    Join { side: JoinSide, with: TableRefV, filter: ExprV },
    Append(TableRefV),
    Unique,
}

/// The transforms of a pipeline, in order.
pub type PipelineV = Seq<TransformV>;

pub ghost enum RelationKindV {
    ExternRef(TableRefV),
    Pipeline(PipelineV),
    Literal(RelationLiteral),
    SString(Seq<InterpolateItem<ExprV>>),
}

pub ghost struct RelationV {
    pub kind: RelationKindV,
    pub columns: Seq<RelationColumn>,
}

pub ghost struct TableDeclV {
    pub id: TId,
    pub name: Option<String>,
    pub relation: RelationV,
}

pub ghost struct QueryV {
    pub def: QueryDef,
    pub tables: Seq<TableDeclV>,
    pub relation: RelationV,
}

pub open spec fn expr_view(e: Expr) -> ExprV
    decreases e,
{
    ExprV { kind: expr_kind_view(e.kind) }
}

pub open spec fn expr_kind_view(k: ExprKind) -> ExprKindV
    decreases k,
{
    match k {
        ExprKind::ColumnRef(cid) => ExprKindV::ColumnRef(cid),
        ExprKind::Literal(lit) => ExprKindV::Literal(lit),
        ExprKind::Binary { left, op, right } => ExprKindV::Binary {
            left: Box::new(expr_view(*left)),
            op,
            right: Box::new(expr_view(*right)),
        },
        ExprKind::Unary { op, expr } => ExprKindV::Unary { op, expr: Box::new(expr_view(*expr)) },
        ExprKind::SString(items) => ExprKindV::SString(items_view(items@)),
        ExprKind::FString(items) => ExprKindV::FString(items_view(items@)),
        ExprKind::Switch(cases) => ExprKindV::Switch(cases_view(cases@)),
        ExprKind::BuiltInFunction { name, args } => ExprKindV::BuiltInFunction {
            name,
            args: exprs_view(args@),
        },
    }
}

pub open spec fn item_view(item: InterpolateItem<Expr>) -> InterpolateItem<ExprV>
    decreases item,
{
    match item {
        InterpolateItem::String(text) => InterpolateItem::String(text),
        InterpolateItem::Expr(expr) => InterpolateItem::Expr(Box::new(expr_view(*expr))),
    }
}

pub open spec fn case_view(case: SwitchCase<Expr>) -> SwitchCase<ExprV>
    decreases case,
{
    SwitchCase { condition: expr_view(case.condition), value: expr_view(case.value) }
}

pub open spec fn exprs_view(exprs: Seq<Expr>) -> Seq<ExprV>
    decreases exprs,
{
    Seq::new(
        exprs.len(),
        |i: int|
            if 0 <= i < exprs.len() {
                expr_view(exprs[i])
            } else {
                arbitrary()
            },
    )
}

pub open spec fn items_view(items: Seq<InterpolateItem<Expr>>) -> Seq<InterpolateItem<ExprV>>
    decreases items,
{
    Seq::new(
        items.len(),
        |i: int|
            if 0 <= i < items.len() {
                item_view(items[i])
            } else {
                arbitrary()
            },
    )
}

pub open spec fn cases_view(cases: Seq<SwitchCase<Expr>>) -> Seq<SwitchCase<ExprV>>
    decreases cases,
{
    Seq::new(
        cases.len(),
        |i: int|
            if 0 <= i < cases.len() {
                case_view(cases[i])
            } else {
                arbitrary()
            },
    )
}

pub open spec fn optional_view(expr: Option<Expr>) -> Option<ExprV> {
    match expr {
        Some(e) => Some(expr_view(e)),
        None => None,
    }
}

pub open spec fn range_view(range: Range<Expr>) -> Range<ExprV> {
    Range { start: optional_view(range.start), end: optional_view(range.end) }
}

pub open spec fn frame_view(frame: WindowFrame<Expr>) -> WindowFrame<ExprV> {
    WindowFrame { kind: frame.kind, range: range_view(frame.range) }
}

/// The view of each node of a sequence, in order.
pub open spec fn views<T: View>(nodes: Seq<T>) -> Seq<T::V> {
    nodes.map_values(|node: T| node@)
}

impl View for Expr {
    type V = ExprV;

    open spec fn view(&self) -> ExprV {
        expr_view(*self)
    }
}

impl View for ExprKind {
    type V = ExprKindV;

    open spec fn view(&self) -> ExprKindV {
        expr_kind_view(*self)
    }
}

impl View for TableRef {
    type V = TableRefV;

    open spec fn view(&self) -> TableRefV {
        TableRefV { source: self.source, columns: self.columns@, name: self.name }
    }
}

impl View for Window {
    type V = WindowV;

    open spec fn view(&self) -> WindowV {
        WindowV { frame: frame_view(self.frame), partition: self.partition@, sort: self.sort@ }
    }
}

impl View for Compute {
    type V = ComputeV;

    open spec fn view(&self) -> ComputeV {
        ComputeV {
            id: self.id,
            expr: self.expr@,
            window: match self.window {
                Some(w) => Some(w@),
                None => None,
            },
            is_aggregation: self.is_aggregation,
        }
    }
}

impl View for Take {
    type V = TakeV;

    open spec fn view(&self) -> TakeV {
        TakeV { range: range_view(self.range), partition: self.partition@, sort: self.sort@ }
    }
}

impl View for Transform {
    type V = TransformV;

    open spec fn view(&self) -> TransformV {
        match *self {
            Transform::From(table) => TransformV::From(table@),
            Transform::Compute(compute) => TransformV::Compute(compute@),
            Transform::Select(ids) => TransformV::Select(ids@),
            Transform::Filter(cond) => TransformV::Filter(cond@),
            Transform::Aggregate { partition, compute } => TransformV::Aggregate {
                partition: partition@,
                compute: compute@,
            },
            Transform::Sort(sorts) => TransformV::Sort(sorts@),
            Transform::Take(take) => TransformV::Take(take@),
            Transform::Join { side, with, filter } => TransformV::Join {
                side,
                with: with@,
                filter: filter@,
            },
            Transform::Append(table) => TransformV::Append(table@),
            Transform::Unique => TransformV::Unique,
        }
    }
}

impl View for RelationKind {
    type V = RelationKindV;

    open spec fn view(&self) -> RelationKindV {
        match *self {
            RelationKind::ExternRef(table) => RelationKindV::ExternRef(table@),
            RelationKind::Pipeline(transforms) => RelationKindV::Pipeline(views(transforms@)),
            RelationKind::Literal(lit) => RelationKindV::Literal(lit),
            RelationKind::SString(items) => RelationKindV::SString(items_view(items@)),
        }
    }
}

impl View for Relation {
    type V = RelationV;

    open spec fn view(&self) -> RelationV {
        RelationV { kind: self.kind@, columns: self.columns@ }
    }
}

impl View for TableDecl {
    type V = TableDeclV;

    open spec fn view(&self) -> TableDeclV {
        TableDeclV { id: self.id, name: self.name, relation: self.relation@ }
    }
}

impl View for Query {
    type V = QueryV;

    open spec fn view(&self) -> QueryV {
        QueryV { def: self.def, tables: views(self.tables@), relation: self.relation@ }
    }
}

} // verus!
