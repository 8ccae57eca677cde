//! Folding a relational query: a compiler pass says what it does at the
//! nodes it cares about, and the functions of this module take it through
//! the rest of the tree, in a fixed order, up to the first failure.
use crate::ast::pl::{ColumnSort, InterpolateItem, Range, SwitchCase, WindowFrame};
use crate::ast::rq::view::{
    case_view, cases_view, expr_view, exprs_view, item_view, items_view, optional_view, views,
    ComputeV, ExprKindV, ExprV, PipelineV, QueryV, RelationKindV, RelationV, TableDeclV,
    TableRefV, TakeV, TransformV, WindowV,
};
use crate::ast::rq::{
    CId, Compute, Expr, ExprKind, Query, Relation, RelationColumn, RelationKind, TableDecl,
    TableRef, Take, Transform, Window,
};
use vstd::prelude::*;

verus! {

/// `anyhow::Error`, the error of a compiler pass. Nothing is claimed of such
/// a value: a fold never makes or reads one, it hands on the one that the
/// pass returned.
#[verifier::external_type_specification]
#[verifier::external_body]
pub struct ExError(anyhow::Error);

/// Where one step of a fold ends: the state of the pass after it, and the
/// node it gave, or the error it failed with.
pub type Stepped<S, T> = (S, Result<T, anyhow::Error>);

/// The end of a step of a pass that is left in state `s` and returns `r`.
pub open spec fn settled<S, T: View>(s: S, r: Result<T, anyhow::Error>) -> Stepped<S, T::V> {
    match r {
        Ok(node) => (s, Ok(node@)),
        Err(e) => (s, Err(e)),
    }
}

/// As `settled`, for a step on a sequence of nodes.
pub open spec fn settled_all<S, T: View>(s: S, r: Result<Vec<T>, anyhow::Error>) -> Stepped<
    S,
    Seq<T::V>,
> {
    match r {
        Ok(nodes) => (s, Ok(views(nodes@))),
        Err(e) => (s, Err(e)),
    }
}

/// As `settled`, for a node whose view is given by `view`.
pub open spec fn settled_by<S, T, V>(
    s: S,
    r: Result<T, anyhow::Error>,
    view: spec_fn(T) -> V,
) -> Stepped<S, V> {
    match r {
        Ok(node) => (s, Ok(view(node))),
        Err(e) => (s, Err(e)),
    }
}

/// Where `first` ended if it failed; else the end of `next`, taken from the
/// state and with the node that `first` gave.
pub open spec fn chain<S, A, B>(
    first: Stepped<S, A>,
    next: spec_fn(S, A) -> Stepped<S, B>,
) -> Stepped<S, B> {
    match first.1 {
        Ok(a) => next(first.0, a),
        Err(e) => (first.0, Err(e)),
    }
}

/// Where `last` ended, with `build` applied to the node it gave, if any.
pub open spec fn finish<S, A, B>(last: Stepped<S, A>, build: spec_fn(A) -> B) -> Stepped<S, B> {
    match last.1 {
        Ok(a) => (last.0, Ok(build(a))),
        Err(e) => (last.0, Err(e)),
    }
}

/// Where a step ends that is taken on each item in turn, from the first on,
/// each from the state that the one before left: after the last item, with
/// what the steps gave in order; or, if one fails, where that one ended, the
/// items behind it never looked at.
pub open spec fn fold_seq<S, A, B>(
    s: S,
    items: Seq<A>,
    step: spec_fn(S, A) -> Stepped<S, B>,
) -> Stepped<S, Seq<B>>
    decreases items.len(),
{
    if items.len() == 0 {
        (s, Ok(Seq::empty()))
    } else {
        chain(
            step(s, items.first()),
            |s1: S, b: B| after(seq![b], fold_seq(s1, items.drop_first(), step)),
        )
    }
}

/// The end `rest` with the nodes `done` put in front of its own.
pub open spec fn after<S, B>(done: Seq<B>, rest: Stepped<S, Seq<B>>) -> Stepped<S, Seq<B>> {
    finish(rest, |more: Seq<B>| done + more)
}

/// Nothing done yet, everything still to do.
proof fn lemma_fold_seq_start<S, A, B>(s: S, items: Seq<A>, step: spec_fn(S, A) -> Stepped<S, B>)
    ensures
        fold_seq(s, items, step) == after(Seq::empty(), fold_seq(s, items.skip(0), step)),
{
    assert(items.skip(0) =~= items);
    match fold_seq(s, items, step).1 {
        Ok(more) => assert(Seq::<B>::empty() + more =~= more),
        Err(_) => {},
    }
}

/// One more item: where its step ends if it fails, else what is still to do
/// behind what is then done.
proof fn lemma_fold_seq_next<S, A, B>(
    s: S,
    items: Seq<A>,
    step: spec_fn(S, A) -> Stepped<S, B>,
    i: int,
    done: Seq<B>,
)
    requires
        0 <= i < items.len(),
    ensures
        after(done, fold_seq(s, items.skip(i), step)) == match step(s, items[i]).1 {
            Ok(b) => after(done.push(b), fold_seq(step(s, items[i]).0, items.skip(i + 1), step)),
            Err(e) => (step(s, items[i]).0, Err(e)),
        },
{
    assert(items.skip(i).first() == items[i]);
    assert(items.skip(i).drop_first() =~= items.skip(i + 1));
    let (s1, r1) = step(s, items[i]);
    match r1 {
        Ok(b) => match fold_seq(s1, items.skip(i + 1), step).1 {
            Ok(more) => assert(done + (seq![b] + more) =~= done.push(b) + more),
            Err(_) => {},
        },
        Err(_) => {},
    }
}

/// Nothing left to do.
proof fn lemma_fold_seq_end<S, A, B>(
    s: S,
    items: Seq<A>,
    step: spec_fn(S, A) -> Stepped<S, B>,
    done: Seq<B>,
)
    ensures
        after(done, fold_seq(s, items.skip(items.len() as int), step)) == (s, Ok::<
            Seq<B>,
            anyhow::Error,
        >(done)),
{
    assert(done + Seq::<B>::empty() =~= done);
}

/// A compiler pass over a relational query. It holds whatever state it
/// needs, and for each kind of node it says what it does there: to its state
/// and to the node.
///
/// The `*_step` functions are that statement as mathematics: from the state
/// before and the node to the state after and the node given back, or the
/// error. Each method does what the step of its kind says; an implementation
/// that Verus reads is held to that, and of any other it is taken on trust.
///
/// A pass that has nothing of its own to do at a kind of node calls the
/// function of this module that is named like the method. That function
/// takes the node apart, hands each part to the pass in a fixed order, and
/// puts the node together again; what it gives is the `default_*` function
/// of that name. A method may also call that function and work on what
/// comes back, or give a node of its own and never look into the one it got.
/// The methods have no bodies of their own here: a body in this trait cannot
/// call a function that is generic over the trait.
pub trait RqFold: Sized {
    spec fn transform_step(self, transform: TransformV) -> Stepped<Self, TransformV>;

    spec fn transforms_step(self, transforms: PipelineV) -> Stepped<Self, PipelineV>;

    spec fn table_step(self, table: TableDeclV) -> Stepped<Self, TableDeclV>;

    spec fn relation_step(self, relation: RelationV) -> Stepped<Self, RelationV>;

    spec fn relation_kind_step(self, kind: RelationKindV) -> Stepped<Self, RelationKindV>;

    spec fn table_ref_step(self, table_ref: TableRefV) -> Stepped<Self, TableRefV>;

    spec fn query_step(self, query: QueryV) -> Stepped<Self, QueryV>;

    spec fn expr_step(self, expr: ExprV) -> Stepped<Self, ExprV>;

    spec fn expr_kind_step(self, kind: ExprKindV) -> Stepped<Self, ExprKindV>;

    spec fn relation_column_step(self, col: RelationColumn) -> Stepped<Self, RelationColumn>;

    spec fn cid_step(self, cid: CId) -> Stepped<Self, CId>;

    spec fn compute_step(self, compute: ComputeV) -> Stepped<Self, ComputeV>;

    fn fold_transform(&mut self, transform: Transform) -> (r: Result<Transform, anyhow::Error>)
        ensures
            settled(*final(self), r) == old(self).transform_step(transform@),
    ;

    fn fold_transforms(&mut self, transforms: Vec<Transform>) -> (r: Result<
        Vec<Transform>,
        anyhow::Error,
    >)
        ensures
            settled_all(*final(self), r) == old(self).transforms_step(views(transforms@)),
    ;

    fn fold_table(&mut self, table: TableDecl) -> (r: Result<TableDecl, anyhow::Error>)
        ensures
            settled(*final(self), r) == old(self).table_step(table@),
    ;

    fn fold_relation(&mut self, relation: Relation) -> (r: Result<Relation, anyhow::Error>)
        ensures
            settled(*final(self), r) == old(self).relation_step(relation@),
    ;

    fn fold_relation_kind(&mut self, rel_kind: RelationKind) -> (r: Result<
        RelationKind,
        anyhow::Error,
    >)
        ensures
            settled(*final(self), r) == old(self).relation_kind_step(rel_kind@),
    ;

    fn fold_table_ref(&mut self, table_ref: TableRef) -> (r: Result<TableRef, anyhow::Error>)
        ensures
            settled(*final(self), r) == old(self).table_ref_step(table_ref@),
    ;

    fn fold_query(&mut self, query: Query) -> (r: Result<Query, anyhow::Error>)
        ensures
            settled(*final(self), r) == old(self).query_step(query@),
    ;

    fn fold_expr(&mut self, expr: Expr) -> (r: Result<Expr, anyhow::Error>)
        ensures
            settled(*final(self), r) == old(self).expr_step(expr@),
    ;

    fn fold_expr_kind(&mut self, kind: ExprKind) -> (r: Result<ExprKind, anyhow::Error>)
        ensures
            settled(*final(self), r) == old(self).expr_kind_step(kind@),
    ;

    fn fold_relation_column(&mut self, col: RelationColumn) -> (r: Result<
        RelationColumn,
        anyhow::Error,
    >)
        ensures
            (*final(self), r) == old(self).relation_column_step(col),
    ;

    fn fold_cid(&mut self, cid: CId) -> (r: Result<CId, anyhow::Error>)
        ensures
            (*final(self), r) == old(self).cid_step(cid),
    ;

    fn fold_compute(&mut self, compute: Compute) -> (r: Result<Compute, anyhow::Error>)
        ensures
            settled(*final(self), r) == old(self).compute_step(compute@),
    ;
}

pub open spec fn default_table<F: RqFold>(s: F, table: TableDeclV) -> Stepped<F, TableDeclV> {
    finish(
        s.relation_step(table.relation),
        |relation: RelationV| TableDeclV { id: table.id, name: table.name, relation },
    )
}

/// Folds the relation of a table; its id and name stay.
pub fn fold_table<F: RqFold>(fold: &mut F, t: TableDecl) -> (r: Result<TableDecl, anyhow::Error>)
    ensures
        settled(*final(fold), r) == default_table(*old(fold), t@),
{
    Ok(TableDecl { id: t.id, name: t.name, relation: fold.fold_relation(t.relation)? })
}

pub open spec fn default_relation<F: RqFold>(s: F, relation: RelationV) -> Stepped<F, RelationV> {
    finish(
        s.relation_kind_step(relation.kind),
        |kind: RelationKindV| RelationV { kind, columns: relation.columns },
    )
}

/// Folds the kind of a relation; what is known of its columns stays.
pub fn fold_relation<F: RqFold>(fold: &mut F, relation: Relation) -> (r: Result<
    Relation,
    anyhow::Error,
>)
    ensures
        settled(*final(fold), r) == default_relation(*old(fold), relation@),
{
    Ok(Relation { kind: fold.fold_relation_kind(relation.kind)?, columns: relation.columns })
}

/// The step of a pass at a column id.
pub open spec fn at_cid<F: RqFold>() -> spec_fn(F, CId) -> Stepped<F, CId> {
    |s: F, cid: CId| s.cid_step(cid)
}

pub open spec fn default_cids<F: RqFold>(s: F, cids: Seq<CId>) -> Stepped<F, Seq<CId>> {
    fold_seq(s, cids, at_cid::<F>())
}

/// Folds each column id, in order.
pub fn fold_cids<F: RqFold>(fold: &mut F, cids: Vec<CId>) -> (r: Result<Vec<CId>, anyhow::Error>)
    ensures
        settled(*final(fold), r) == default_cids(*old(fold), cids@),
{
    let mut out: Vec<CId> = Vec::new();
    proof {
        lemma_fold_seq_start(*fold, cids@, at_cid::<F>());
    }
    for cid in it: cids
        invariant
            it.seq() == cids@,
            default_cids(*old(fold), cids@) == after(
                out@,
                fold_seq(*fold, cids@.skip(it.index() as int), at_cid::<F>()),
            ),
    {
        proof {
            lemma_fold_seq_next(*fold, cids@, at_cid::<F>(), it.index() as int, out@);
        }
        let cid = fold.fold_cid(cid)?;
        out.push(cid);
    }
    proof {
        lemma_fold_seq_end(*fold, cids@, at_cid::<F>(), out@);
    }
    Ok(out)
}

/// The default step at a sort key: the column id is folded, the direction
/// stays.
pub open spec fn at_column_sort<F: RqFold>() -> spec_fn(F, ColumnSort<CId>) -> Stepped<
    F,
    ColumnSort<CId>,
> {
    |s: F, sort: ColumnSort<CId>|
        finish(
            s.cid_step(sort.column),
            |column: CId| ColumnSort { column, direction: sort.direction },
        )
}

pub open spec fn default_column_sorts<F: RqFold>(s: F, sorts: Seq<ColumnSort<CId>>) -> Stepped<
    F,
    Seq<ColumnSort<CId>>,
> {
    fold_seq(s, sorts, at_column_sort::<F>())
}

/// Folds the column id of each sort key, in order.
pub fn fold_column_sorts<F: RqFold>(fold: &mut F, sorts: Vec<ColumnSort<CId>>) -> (r: Result<
    Vec<ColumnSort<CId>>,
    anyhow::Error,
>)
    ensures
        settled(*final(fold), r) == default_column_sorts(*old(fold), sorts@),
{
    let mut out: Vec<ColumnSort<CId>> = Vec::new();
    proof {
        lemma_fold_seq_start(*fold, sorts@, at_column_sort::<F>());
    }
    for sort in it: sorts
        invariant
            it.seq() == sorts@,
            default_column_sorts(*old(fold), sorts@) == after(
                out@,
                fold_seq(*fold, sorts@.skip(it.index() as int), at_column_sort::<F>()),
            ),
    {
        proof {
            lemma_fold_seq_next(*fold, sorts@, at_column_sort::<F>(), it.index() as int, out@);
        }
        let column = fold.fold_cid(sort.column)?;
        out.push(ColumnSort { column, direction: sort.direction });
    }
    proof {
        lemma_fold_seq_end(*fold, sorts@, at_column_sort::<F>(), out@);
    }
    Ok(out)
}

/// The default step at a column of a table reference: first what is known
/// of the column, then its id.
pub open spec fn at_table_column<F: RqFold>() -> spec_fn(F, (RelationColumn, CId)) -> Stepped<
    F,
    (RelationColumn, CId),
> {
    |s: F, pair: (RelationColumn, CId)|
        chain(
            s.relation_column_step(pair.0),
            |s1: F, col: RelationColumn| finish(s1.cid_step(pair.1), |cid: CId| (col, cid)),
        )
}

pub open spec fn default_table_ref<F: RqFold>(s: F, table_ref: TableRefV) -> Stepped<
    F,
    TableRefV,
> {
    finish(
        fold_seq(s, table_ref.columns, at_table_column::<F>()),
        |columns: Seq<(RelationColumn, CId)>|
            TableRefV { source: table_ref.source, columns, name: table_ref.name },
    )
}

/// Folds the columns of a table reference in order, of each first what is
/// known of it and then its id; the source and the name stay.
#[verifier::loop_isolation(false)]
pub fn fold_table_ref<F: RqFold>(fold: &mut F, table_ref: TableRef) -> (r: Result<
    TableRef,
    anyhow::Error,
>)
    ensures
        settled(*final(fold), r) == default_table_ref(*old(fold), table_ref@),
{
    let TableRef { source, columns, name } = table_ref;
    let mut out: Vec<(RelationColumn, CId)> = Vec::new();
    proof {
        lemma_fold_seq_start(*fold, columns@, at_table_column::<F>());
    }
    for pair in it: columns
        invariant
            it.seq() == columns@,
            fold_seq(*old(fold), columns@, at_table_column::<F>()) == after(
                out@,
                fold_seq(*fold, columns@.skip(it.index() as int), at_table_column::<F>()),
            ),
    {
        proof {
            lemma_fold_seq_next(*fold, columns@, at_table_column::<F>(), it.index() as int, out@);
        }
        let (col, cid) = pair;
        let col = fold.fold_relation_column(col)?;
        let cid = fold.fold_cid(cid)?;
        out.push((col, cid));
    }
    proof {
        lemma_fold_seq_end(*fold, columns@, at_table_column::<F>(), out@);
    }
    Ok(TableRef { source, columns: out, name })
}

/// The step of a pass at a transform.
pub open spec fn at_transform<F: RqFold>() -> spec_fn(F, TransformV) -> Stepped<F, TransformV> {
    |s: F, transform: TransformV| s.transform_step(transform)
}

pub open spec fn default_transforms<F: RqFold>(s: F, transforms: Seq<TransformV>) -> Stepped<
    F,
    Seq<TransformV>,
> {
    fold_seq(s, transforms, at_transform::<F>())
}

/// Folds each transform of a pipeline, in order.
pub fn fold_transforms<F: RqFold>(fold: &mut F, transforms: Vec<Transform>) -> (r: Result<
    Vec<Transform>,
    anyhow::Error,
>)
    ensures
        settled_all(*final(fold), r) == default_transforms(*old(fold), views(transforms@)),
{
    let ghost all = views(transforms@);
    let mut out: Vec<Transform> = Vec::new();
    proof {
        lemma_fold_seq_start(*fold, all, at_transform::<F>());
        assert(views(out@) =~= Seq::empty());
    }
    for transform in it: transforms
        invariant
            it.seq() == transforms@,
            all == views(transforms@),
            default_transforms(*old(fold), all) == after(
                views(out@),
                fold_seq(*fold, all.skip(it.index() as int), at_transform::<F>()),
            ),
    {
        proof {
            lemma_fold_seq_next(*fold, all, at_transform::<F>(), it.index() as int, views(out@));
        }
        let ghost done = out@;
        let transform = fold.fold_transform(transform)?;
        out.push(transform);
        assert(views(out@) =~= views(done).push(transform@));
    }
    proof {
        lemma_fold_seq_end(*fold, all, at_transform::<F>(), views(out@));
    }
    Ok(out)
}

/// The step of a pass at a table.
pub open spec fn at_table<F: RqFold>() -> spec_fn(F, TableDeclV) -> Stepped<F, TableDeclV> {
    |s: F, table: TableDeclV| s.table_step(table)
}

pub open spec fn default_query<F: RqFold>(s: F, query: QueryV) -> Stepped<F, QueryV> {
    chain(
        s.relation_step(query.relation),
        |s1: F, relation: RelationV|
            finish(
                fold_seq(s1, query.tables, at_table::<F>()),
                |tables: Seq<TableDeclV>| QueryV { def: query.def, tables, relation },
            ),
    )
}

/// Folds the main relation of a query, then its tables in order; what the
/// query says of itself stays.
#[verifier::loop_isolation(false)]
pub fn fold_query<F: RqFold>(fold: &mut F, query: Query) -> (r: Result<Query, anyhow::Error>)
    ensures
        settled(*final(fold), r) == default_query(*old(fold), query@),
{
    let Query { def, tables, relation } = query;
    let relation = fold.fold_relation(relation)?;
    let ghost mid = *fold;
    let ghost all = views(tables@);
    let mut out: Vec<TableDecl> = Vec::new();
    proof {
        lemma_fold_seq_start(*fold, all, at_table::<F>());
        assert(views(out@) =~= Seq::empty());
    }
    for table in it: tables
        invariant
            it.seq() == tables@,
            all == views(tables@),
            fold_seq(mid, all, at_table::<F>()) == after(
                views(out@),
                fold_seq(*fold, all.skip(it.index() as int), at_table::<F>()),
            ),
    {
        proof {
            lemma_fold_seq_next(*fold, all, at_table::<F>(), it.index() as int, views(out@));
        }
        let ghost done = out@;
        let table = fold.fold_table(table)?;
        out.push(table);
        assert(views(out@) =~= views(done).push(table@));
    }
    proof {
        lemma_fold_seq_end(*fold, all, at_table::<F>(), views(out@));
    }
    Ok(Query { def, tables: out, relation })
}

pub open spec fn default_expr<F: RqFold>(s: F, expr: ExprV) -> Stepped<F, ExprV> {
    finish(s.expr_kind_step(expr.kind), |kind: ExprKindV| ExprV { kind })
}

/// Folds the kind of an expression.
pub fn fold_expr<F: RqFold>(fold: &mut F, expr: Expr) -> (r: Result<Expr, anyhow::Error>)
    ensures
        settled(*final(fold), r) == default_expr(*old(fold), expr@),
{
    Ok(Expr { kind: fold.fold_expr_kind(expr.kind)? })
}

/// The step of a pass at an expression.
pub open spec fn at_expr<F: RqFold>() -> spec_fn(F, ExprV) -> Stepped<F, ExprV> {
    |s: F, expr: ExprV| s.expr_step(expr)
}

pub open spec fn default_exprs<F: RqFold>(s: F, exprs: Seq<ExprV>) -> Stepped<F, Seq<ExprV>> {
    fold_seq(s, exprs, at_expr::<F>())
}

/// Folds each expression, in order.
fn fold_exprs<F: RqFold>(fold: &mut F, exprs: Vec<Expr>) -> (r: Result<Vec<Expr>, anyhow::Error>)
    ensures
        settled_by(*final(fold), r, |v: Vec<Expr>| exprs_view(v@)) == default_exprs(
            *old(fold),
            exprs_view(exprs@),
        ),
{
    let ghost all = exprs_view(exprs@);
    let mut out: Vec<Expr> = Vec::new();
    proof {
        lemma_fold_seq_start(*fold, all, at_expr::<F>());
        assert(exprs_view(out@) =~= Seq::empty());
    }
    for expr in it: exprs
        invariant
            it.seq() == exprs@,
            all == exprs_view(exprs@),
            default_exprs(*old(fold), all) == after(
                exprs_view(out@),
                fold_seq(*fold, all.skip(it.index() as int), at_expr::<F>()),
            ),
    {
        proof {
            lemma_fold_seq_next(*fold, all, at_expr::<F>(), it.index() as int, exprs_view(out@));
        }
        let ghost done = out@;
        let expr = fold.fold_expr(expr)?;
        out.push(expr);
        assert(exprs_view(out@) =~= exprs_view(done).push(expr@));
    }
    proof {
        lemma_fold_seq_end(*fold, all, at_expr::<F>(), exprs_view(out@));
    }
    Ok(out)
}

pub open spec fn default_interpolate_item<F: RqFold>(
    s: F,
    item: InterpolateItem<ExprV>,
) -> Stepped<F, InterpolateItem<ExprV>> {
    match item {
        InterpolateItem::String(_) => (s, Ok(item)),
        InterpolateItem::Expr(expr) => finish(
            s.expr_step(*expr),
            |expr: ExprV| InterpolateItem::Expr(Box::new(expr)),
        ),
    }
}

/// Folds the expression of an item of an interpolated string; text stays as
/// it is.
pub fn fold_interpolate_item<F: RqFold>(fold: &mut F, item: InterpolateItem<Expr>) -> (r: Result<
    InterpolateItem<Expr>,
    anyhow::Error,
>)
    ensures
        settled_by(*final(fold), r, |i: InterpolateItem<Expr>| item_view(i))
            == default_interpolate_item(*old(fold), item_view(item)),
{
    Ok(
        match item {
            InterpolateItem::String(text) => InterpolateItem::String(text),
            InterpolateItem::Expr(expr) => InterpolateItem::Expr(Box::new(fold.fold_expr(*expr)?)),
        },
    )
}

/// The default step at an item of an interpolated string.
pub open spec fn at_interpolate_item<F: RqFold>() -> spec_fn(F, InterpolateItem<ExprV>) -> Stepped<
    F,
    InterpolateItem<ExprV>,
> {
    |s: F, item: InterpolateItem<ExprV>| default_interpolate_item(s, item)
}

pub open spec fn default_interpolate_items<F: RqFold>(
    s: F,
    items: Seq<InterpolateItem<ExprV>>,
) -> Stepped<F, Seq<InterpolateItem<ExprV>>> {
    fold_seq(s, items, at_interpolate_item::<F>())
}

/// Folds each item of an interpolated string, in order.
pub fn fold_interpolate_items<F: RqFold>(fold: &mut F, items: Vec<InterpolateItem<Expr>>) -> (r:
    Result<Vec<InterpolateItem<Expr>>, anyhow::Error>)
    ensures
        settled_by(*final(fold), r, |v: Vec<InterpolateItem<Expr>>| items_view(v@))
            == default_interpolate_items(*old(fold), items_view(items@)),
{
    let ghost all = items_view(items@);
    let mut out: Vec<InterpolateItem<Expr>> = Vec::new();
    proof {
        lemma_fold_seq_start(*fold, all, at_interpolate_item::<F>());
        assert(items_view(out@) =~= Seq::empty());
    }
    for item in it: items
        invariant
            it.seq() == items@,
            all == items_view(items@),
            default_interpolate_items(*old(fold), all) == after(
                items_view(out@),
                fold_seq(*fold, all.skip(it.index() as int), at_interpolate_item::<F>()),
            ),
    {
        proof {
            lemma_fold_seq_next(
                *fold,
                all,
                at_interpolate_item::<F>(),
                it.index() as int,
                items_view(out@),
            );
        }
        let ghost done = out@;
        let item = fold_interpolate_item(fold, item)?;
        out.push(item);
        assert(items_view(out@) =~= items_view(done).push(item_view(item)));
    }
    proof {
        lemma_fold_seq_end(*fold, all, at_interpolate_item::<F>(), items_view(out@));
    }
    Ok(out)
}

pub open spec fn default_switch_case<F: RqFold>(s: F, case: SwitchCase<ExprV>) -> Stepped<
    F,
    SwitchCase<ExprV>,
> {
    chain(
        s.expr_step(case.condition),
        |s1: F, condition: ExprV|
            finish(s1.expr_step(case.value), |value: ExprV| SwitchCase { condition, value }),
    )
}

/// Folds the condition of a case, then its value.
pub fn fold_switch_case<F: RqFold>(fold: &mut F, case: SwitchCase<Expr>) -> (r: Result<
    SwitchCase<Expr>,
    anyhow::Error,
>)
    ensures
        settled_by(*final(fold), r, |c: SwitchCase<Expr>| case_view(c)) == default_switch_case(
            *old(fold),
            case_view(case),
        ),
{
    Ok(
        SwitchCase {
            condition: fold.fold_expr(case.condition)?,
            value: fold.fold_expr(case.value)?,
        },
    )
}

/// The default step at a case of a switch.
pub open spec fn at_switch_case<F: RqFold>() -> spec_fn(F, SwitchCase<ExprV>) -> Stepped<
    F,
    SwitchCase<ExprV>,
> {
    |s: F, case: SwitchCase<ExprV>| default_switch_case(s, case)
}

pub open spec fn default_switch_cases<F: RqFold>(s: F, cases: Seq<SwitchCase<ExprV>>) -> Stepped<
    F,
    Seq<SwitchCase<ExprV>>,
> {
    fold_seq(s, cases, at_switch_case::<F>())
}

/// Folds each case of a switch, in order.
fn fold_switch_cases<F: RqFold>(fold: &mut F, cases: Vec<SwitchCase<Expr>>) -> (r: Result<
    Vec<SwitchCase<Expr>>,
    anyhow::Error,
>)
    ensures
        settled_by(*final(fold), r, |v: Vec<SwitchCase<Expr>>| cases_view(v@))
            == default_switch_cases(*old(fold), cases_view(cases@)),
{
    let ghost all = cases_view(cases@);
    let mut out: Vec<SwitchCase<Expr>> = Vec::new();
    proof {
        lemma_fold_seq_start(*fold, all, at_switch_case::<F>());
        assert(cases_view(out@) =~= Seq::empty());
    }
    for case in it: cases
        invariant
            it.seq() == cases@,
            all == cases_view(cases@),
            default_switch_cases(*old(fold), all) == after(
                cases_view(out@),
                fold_seq(*fold, all.skip(it.index() as int), at_switch_case::<F>()),
            ),
    {
        proof {
            lemma_fold_seq_next(
                *fold,
                all,
                at_switch_case::<F>(),
                it.index() as int,
                cases_view(out@),
            );
        }
        let ghost done = out@;
        let case = fold_switch_case(fold, case)?;
        out.push(case);
        assert(cases_view(out@) =~= cases_view(done).push(case_view(case)));
    }
    proof {
        lemma_fold_seq_end(*fold, all, at_switch_case::<F>(), cases_view(out@));
    }
    Ok(out)
}

pub open spec fn default_expr_kind<F: RqFold>(s: F, kind: ExprKindV) -> Stepped<F, ExprKindV> {
    match kind {
        ExprKindV::ColumnRef(cid) => finish(s.cid_step(cid), |cid: CId| ExprKindV::ColumnRef(cid)),
        ExprKindV::Binary { left, op, right } => chain(
            s.expr_step(*left),
            |s1: F, left: ExprV|
                finish(
                    s1.expr_step(*right),
                    |right: ExprV|
                        ExprKindV::Binary { left: Box::new(left), op, right: Box::new(right) },
                ),
        ),
        ExprKindV::Unary { op, expr } => finish(
            s.expr_step(*expr),
            |expr: ExprV| ExprKindV::Unary { op, expr: Box::new(expr) },
        ),
        ExprKindV::SString(items) => finish(
            default_interpolate_items(s, items),
            |items: Seq<InterpolateItem<ExprV>>| ExprKindV::SString(items),
        ),
        ExprKindV::FString(items) => finish(
            default_interpolate_items(s, items),
            |items: Seq<InterpolateItem<ExprV>>| ExprKindV::FString(items),
        ),
        ExprKindV::Switch(cases) => finish(
            default_switch_cases(s, cases),
            |cases: Seq<SwitchCase<ExprV>>| ExprKindV::Switch(cases),
        ),
        ExprKindV::BuiltInFunction { name, args } => finish(
            default_exprs(s, args),
            |args: Seq<ExprV>| ExprKindV::BuiltInFunction { name, args },
        ),
        ExprKindV::Literal(_) => (s, Ok(kind)),
    }
}

/// Folds what an expression is made of: a column id; the left side of a
/// binary operation, then the right; the operand of a unary one; the items
/// of an interpolated string, the cases of a switch or the arguments of a
/// call, in order. A literal stays as it is, and so do operators and names.
pub fn fold_expr_kind<F: RqFold>(fold: &mut F, kind: ExprKind) -> (r: Result<
    ExprKind,
    anyhow::Error,
>)
    ensures
        settled(*final(fold), r) == default_expr_kind(*old(fold), kind@),
{
    Ok(
        match kind {
            ExprKind::ColumnRef(cid) => ExprKind::ColumnRef(fold.fold_cid(cid)?),
            ExprKind::Binary { left, op, right } => ExprKind::Binary {
                left: Box::new(fold.fold_expr(*left)?),
                op,
                right: Box::new(fold.fold_expr(*right)?),
            },
            ExprKind::Unary { op, expr } => ExprKind::Unary {
                op,
                expr: Box::new(fold.fold_expr(*expr)?),
            },
            ExprKind::SString(items) => ExprKind::SString(fold_interpolate_items(fold, items)?),
            ExprKind::FString(items) => ExprKind::FString(fold_interpolate_items(fold, items)?),
            ExprKind::Switch(cases) => ExprKind::Switch(fold_switch_cases(fold, cases)?),
            ExprKind::BuiltInFunction { name, args } => ExprKind::BuiltInFunction {
                name,
                args: fold_exprs(fold, args)?,
            },
            ExprKind::Literal(lit) => ExprKind::Literal(lit),
        },
    )
}

pub open spec fn default_optional_box<F: RqFold>(s: F, opt: Option<Box<ExprV>>) -> Stepped<
    F,
    Option<Box<ExprV>>,
> {
    match opt {
        Some(expr) => finish(s.expr_step(*expr), |expr: ExprV| Some(Box::new(expr))),
        None => (s, Ok(None)),
    }
}

/// The view of an expression that may be there.
pub open spec fn optional_box_view(opt: Option<Box<Expr>>) -> Option<Box<ExprV>> {
    match opt {
        Some(expr) => Some(Box::new(expr_view(*expr))),
        None => None,
    }
}

/// Folds an expression that may be there.
pub fn fold_optional_box<F: RqFold>(fold: &mut F, opt: Option<Box<Expr>>) -> (r: Result<
    Option<Box<Expr>>,
    anyhow::Error,
>)
    ensures
        settled_by(*final(fold), r, |o: Option<Box<Expr>>| optional_box_view(o))
            == default_optional_box(*old(fold), optional_box_view(opt)),
{
    Ok(
        match opt {
            Some(e) => Some(Box::new(fold.fold_expr(*e)?)),
            None => None,
        },
    )
}

pub open spec fn default_optional<F: RqFold>(s: F, opt: Option<ExprV>) -> Stepped<
    F,
    Option<ExprV>,
> {
    match opt {
        Some(expr) => finish(s.expr_step(expr), |expr: ExprV| Some(expr)),
        None => (s, Ok(None)),
    }
}

/// Folds a bound of a range, if it is there.
fn fold_optional<F: RqFold>(fold: &mut F, opt: Option<Expr>) -> (r: Result<
    Option<Expr>,
    anyhow::Error,
>)
    ensures
        settled_by(*final(fold), r, |o: Option<Expr>| optional_view(o)) == default_optional(
            *old(fold),
            optional_view(opt),
        ),
{
    Ok(
        match opt {
            Some(e) => Some(fold.fold_expr(e)?),
            None => None,
        },
    )
}

pub open spec fn default_window<F: RqFold>(s: F, window: WindowV) -> Stepped<F, WindowV> {
    chain(
        default_optional(s, window.frame.range.start),
        |s1: F, start: Option<ExprV>|
            chain(
                default_optional(s1, window.frame.range.end),
                |s2: F, end: Option<ExprV>|
                    chain(
                        default_cids(s2, window.partition),
                        |s3: F, partition: Seq<CId>|
                            finish(
                                default_column_sorts(s3, window.sort),
                                |sort: Seq<ColumnSort<CId>>|
                                    WindowV {
                                        frame: WindowFrame {
                                            kind: window.frame.kind,
                                            range: Range { start, end },
                                        },
                                        partition,
                                        sort,
                                    },
                            ),
                    ),
            ),
    )
}

/// Folds the start of the frame of a window, then its end, then the column
/// ids that it is partitioned by, then those that it is sorted by.
pub fn fold_window<F: RqFold>(fold: &mut F, w: Window) -> (r: Result<Window, anyhow::Error>)
    ensures
        settled(*final(fold), r) == default_window(*old(fold), w@),
{
    Ok(
        Window {
            frame: WindowFrame {
                kind: w.frame.kind,
                range: Range {
                    start: fold_optional(fold, w.frame.range.start)?,
                    end: fold_optional(fold, w.frame.range.end)?,
                },
            },
            partition: fold_cids(fold, w.partition)?,
            sort: fold_column_sorts(fold, w.sort)?,
        },
    )
}

pub open spec fn default_optional_window<F: RqFold>(s: F, window: Option<WindowV>) -> Stepped<
    F,
    Option<WindowV>,
> {
    match window {
        Some(w) => finish(default_window(s, w), |w: WindowV| Some(w)),
        None => (s, Ok(None)),
    }
}

pub open spec fn default_compute<F: RqFold>(s: F, compute: ComputeV) -> Stepped<F, ComputeV> {
    chain(
        s.cid_step(compute.id),
        |s1: F, id: CId|
            chain(
                s1.expr_step(compute.expr),
                |s2: F, expr: ExprV|
                    finish(
                        default_optional_window(s2, compute.window),
                        |window: Option<WindowV>|
                            ComputeV {
                                id,
                                expr,
                                window,
                                is_aggregation: compute.is_aggregation,
                            },
                    ),
            ),
    )
}

/// Folds the id of a computed column, then its expression, then its window
/// if it has one.
pub fn fold_compute<F: RqFold>(fold: &mut F, compute: Compute) -> (r: Result<
    Compute,
    anyhow::Error,
>)
    ensures
        settled(*final(fold), r) == default_compute(*old(fold), compute@),
{
    Ok(
        Compute {
            id: fold.fold_cid(compute.id)?,
            expr: fold.fold_expr(compute.expr)?,
            window: match compute.window {
                Some(w) => Some(fold_window(fold, w)?),
                None => None,
            },
            is_aggregation: compute.is_aggregation,
        },
    )
}

pub open spec fn default_take<F: RqFold>(s: F, take: TakeV) -> Stepped<F, TakeV> {
    chain(
        default_cids(s, take.partition),
        |s1: F, partition: Seq<CId>|
            finish(
                default_column_sorts(s1, take.sort),
                |sort: Seq<ColumnSort<CId>>| TakeV { range: take.range, partition, sort },
            ),
    )
}

pub open spec fn default_transform<F: RqFold>(s: F, transform: TransformV) -> Stepped<
    F,
    TransformV,
> {
    match transform {
        TransformV::From(table) => finish(
            s.table_ref_step(table),
            |table: TableRefV| TransformV::From(table),
        ),
        TransformV::Compute(compute) => finish(
            s.compute_step(compute),
            |compute: ComputeV| TransformV::Compute(compute),
        ),
        TransformV::Aggregate { partition, compute } => chain(
            default_cids(s, partition),
            |s1: F, partition: Seq<CId>|
                finish(
                    default_cids(s1, compute),
                    |compute: Seq<CId>| TransformV::Aggregate { partition, compute },
                ),
        ),
        TransformV::Select(ids) => finish(
            default_cids(s, ids),
            |ids: Seq<CId>| TransformV::Select(ids),
        ),
        TransformV::Filter(cond) => finish(
            s.expr_step(cond),
            |cond: ExprV| TransformV::Filter(cond),
        ),
        TransformV::Sort(sorts) => finish(
            default_column_sorts(s, sorts),
            |sorts: Seq<ColumnSort<CId>>| TransformV::Sort(sorts),
        ),
        TransformV::Take(take) => finish(
            default_take(s, take),
            |take: TakeV| TransformV::Take(take),
        ),
        TransformV::Join { side, with, filter } => chain(
            s.table_ref_step(with),
            |s1: F, with: TableRefV|
                finish(
                    s1.expr_step(filter),
                    |filter: ExprV| TransformV::Join { side, with, filter },
                ),
        ),
        TransformV::Append(table) => finish(
            s.table_ref_step(table),
            |table: TableRefV| TransformV::Append(table),
        ),
        TransformV::Unique => (s, Ok(transform)),
    }
}

/// Folds what a transform is made of, in the order in which it is declared:
/// a table reference; a computed column; the column ids that an aggregation
/// is partitioned by, then those it computes; the column ids of a selection;
/// the condition of a filter; the column id of each sort key; of a take, the
/// column ids that it is partitioned by, then those that it is sorted by,
/// its range staying as it is; of a join, the table reference, then the
/// condition, its side staying as it is.
pub fn fold_transform<F: RqFold>(fold: &mut F, transform: Transform) -> (r: Result<
    Transform,
    anyhow::Error,
>)
    ensures
        settled(*final(fold), r) == default_transform(*old(fold), transform@),
{
    Ok(
        match transform {
            Transform::From(tid) => Transform::From(fold.fold_table_ref(tid)?),
            Transform::Compute(compute) => Transform::Compute(fold.fold_compute(compute)?),
            Transform::Aggregate { partition, compute } => Transform::Aggregate {
                partition: fold_cids(fold, partition)?,
                compute: fold_cids(fold, compute)?,
            },
            Transform::Select(ids) => Transform::Select(fold_cids(fold, ids)?),
            Transform::Filter(i) => Transform::Filter(fold.fold_expr(i)?),
            Transform::Sort(sorts) => Transform::Sort(fold_column_sorts(fold, sorts)?),
            Transform::Take(take) => Transform::Take(
                Take {
                    partition: fold_cids(fold, take.partition)?,
                    sort: fold_column_sorts(fold, take.sort)?,
                    range: take.range,
                },
            ),
            Transform::Join { side, with, filter } => Transform::Join {
                side,
                with: fold.fold_table_ref(with)?,
                filter: fold.fold_expr(filter)?,
            },
            Transform::Append(bottom) => Transform::Append(fold.fold_table_ref(bottom)?),
            Transform::Unique => Transform::Unique,
        },
    )
}

pub open spec fn default_relation_kind<F: RqFold>(s: F, kind: RelationKindV) -> Stepped<
    F,
    RelationKindV,
> {
    match kind {
        RelationKindV::ExternRef(_) => (s, Ok(kind)),
        RelationKindV::Pipeline(transforms) => finish(
            s.transforms_step(transforms),
            |transforms: Seq<TransformV>| RelationKindV::Pipeline(transforms),
        ),
        RelationKindV::Literal(_) => (s, Ok(kind)),
        RelationKindV::SString(items) => finish(
            default_interpolate_items(s, items),
            |items: Seq<InterpolateItem<ExprV>>| RelationKindV::SString(items),
        ),
    }
}

/// Folds the transforms of a pipeline, or the items of an interpolated
/// string; a reference to a table outside the query and a literal stay as
/// they are.
pub fn fold_relation_kind<F: RqFold>(fold: &mut F, rel: RelationKind) -> (r: Result<
    RelationKind,
    anyhow::Error,
>)
    ensures
        settled(*final(fold), r) == default_relation_kind(*old(fold), rel@),
{
    Ok(
        match rel {
            RelationKind::ExternRef(table_ref) => RelationKind::ExternRef(table_ref),
            RelationKind::Pipeline(transforms) => RelationKind::Pipeline(
                fold.fold_transforms(transforms)?,
            ),
            RelationKind::Literal(lit) => RelationKind::Literal(lit),
            RelationKind::SString(items) => RelationKind::SString(
                fold_interpolate_items(fold, items)?,
            ),
        },
    )
}

/// Leaves a column id as it is.
pub fn fold_cid<F: RqFold>(fold: &mut F, cid: CId) -> (r: Result<CId, anyhow::Error>)
    ensures
        (*final(fold), r) == (*old(fold), Ok::<CId, anyhow::Error>(cid)),
{
    Ok(cid)
}

/// Leaves what is known of a column as it is.
pub fn fold_relation_column<F: RqFold>(fold: &mut F, col: RelationColumn) -> (r: Result<
    RelationColumn,
    anyhow::Error,
>)
    ensures
        (*final(fold), r) == (*old(fold), Ok::<RelationColumn, anyhow::Error>(col)),
{
    Ok(col)
}

} // verus!
