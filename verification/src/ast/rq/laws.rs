//! What holds of every fold.
use crate::ast::pl::{InterpolateItem, SwitchCase};
use crate::ast::rq::fold::{
    after, at_cid, at_column_sort, at_expr, at_interpolate_item, at_switch_case, at_table,
    at_table_column, at_transform, default_compute, default_expr, default_expr_kind,
    default_interpolate_items, default_query, default_relation, default_relation_kind,
    default_table, default_table_ref, default_transform, default_transforms, fold_seq, settled,
    RqFold, Stepped,
};
use crate::ast::rq::view::{
    ComputeV, ExprKindV, ExprV, QueryV, RelationKindV, RelationV, TableDeclV, TableRefV,
    TransformV,
};
use crate::ast::rq::{CId, Query, RelationColumn};
use vstd::prelude::*;

verus! {

/// Whether a pass does at every node what the default does there: it leaves
/// column ids and what is known of columns as they are, and at every other
/// kind of node it takes the default step.
pub open spec fn follows_defaults<F: RqFold>() -> bool {
    &&& forall|s: F, cid: CId| #[trigger] s.cid_step(cid) == (s, Ok::<CId, anyhow::Error>(cid))
    &&& forall|s: F, col: RelationColumn| #[trigger]
        s.relation_column_step(col) == (s, Ok::<RelationColumn, anyhow::Error>(col))
    &&& forall|s: F, expr: ExprV| #[trigger] s.expr_step(expr) == default_expr(s, expr)
    &&& forall|s: F, kind: ExprKindV| #[trigger]
        s.expr_kind_step(kind) == default_expr_kind(s, kind)
    &&& forall|s: F, compute: ComputeV| #[trigger]
        s.compute_step(compute) == default_compute(s, compute)
    &&& forall|s: F, table_ref: TableRefV| #[trigger]
        s.table_ref_step(table_ref) == default_table_ref(s, table_ref)
    &&& forall|s: F, transform: TransformV| #[trigger]
        s.transform_step(transform) == default_transform(s, transform)
    &&& forall|s: F, transforms: Seq<TransformV>| #[trigger]
        s.transforms_step(transforms) == default_transforms(s, transforms)
    &&& forall|s: F, kind: RelationKindV| #[trigger]
        s.relation_kind_step(kind) == default_relation_kind(s, kind)
    &&& forall|s: F, relation: RelationV| #[trigger]
        s.relation_step(relation) == default_relation(s, relation)
    &&& forall|s: F, table: TableDeclV| #[trigger] s.table_step(table) == default_table(s, table)
    &&& forall|s: F, query: QueryV| #[trigger] s.query_step(query) == default_query(s, query)
}

/// A step that leaves every item of a sequence and the state as they are
/// leaves the sequence and the state as they are.
pub proof fn lemma_fold_seq_keeps<S, A>(s: S, items: Seq<A>, step: spec_fn(S, A) -> Stepped<S, A>)
    requires
        forall|i: int| 0 <= i < items.len() ==> #[trigger] step(s, items[i]) == (s, Ok::<
            A,
            anyhow::Error,
        >(items[i])),
    ensures
        fold_seq(s, items, step) == (s, Ok::<Seq<A>, anyhow::Error>(items)),
    decreases items.len(),
{
    if items.len() > 0 {
        let rest = items.drop_first();
        assert(step(s, items[0]) == (s, Ok::<A, anyhow::Error>(items[0])));
        assert forall|i: int| 0 <= i < rest.len() implies #[trigger] step(s, rest[i]) == (
            s,
            Ok::<A, anyhow::Error>(rest[i]),
        ) by {
            assert(rest[i] == items[i + 1]);
        }
        lemma_fold_seq_keeps(s, rest, step);
        assert(seq![items[0]] + rest =~= items);
    } else {
        assert(items =~= Seq::empty());
    }
}

/// A pass that follows the defaults leaves every expression as it is.
pub proof fn lemma_defaults_keep_expr<F: RqFold>(s: F, expr: ExprV)
    requires
        follows_defaults::<F>(),
    ensures
        s.expr_step(expr) == (s, Ok::<ExprV, anyhow::Error>(expr)),
    decreases expr,
{
    lemma_defaults_keep_expr_kind(s, expr.kind);
}

/// A pass that follows the defaults leaves every kind of expression as it
/// is.
pub proof fn lemma_defaults_keep_expr_kind<F: RqFold>(s: F, kind: ExprKindV)
    requires
        follows_defaults::<F>(),
    ensures
        s.expr_kind_step(kind) == (s, Ok::<ExprKindV, anyhow::Error>(kind)),
    decreases kind,
{
    match kind {
        ExprKindV::ColumnRef(_) => {},
        ExprKindV::Literal(_) => {},
        ExprKindV::Binary { left, op, right } => {
            lemma_defaults_keep_expr(s, *left);
            lemma_defaults_keep_expr(s, *right);
        },
        ExprKindV::Unary { op, expr } => {
            lemma_defaults_keep_expr(s, *expr);
        },
        ExprKindV::SString(items) => {
            lemma_defaults_keep_items(s, items);
        },
        ExprKindV::FString(items) => {
            lemma_defaults_keep_items(s, items);
        },
        ExprKindV::Switch(cases) => {
            assert forall|i: int| 0 <= i < cases.len() implies #[trigger] at_switch_case::<F>()(
                s,
                cases[i],
            ) == (s, Ok::<SwitchCase<ExprV>, anyhow::Error>(cases[i])) by {
                lemma_defaults_keep_expr(s, cases[i].condition);
                lemma_defaults_keep_expr(s, cases[i].value);
            }
            lemma_fold_seq_keeps(s, cases, at_switch_case::<F>());
        },
        ExprKindV::BuiltInFunction { name, args } => {
            assert forall|i: int| 0 <= i < args.len() implies #[trigger] at_expr::<F>()(
                s,
                args[i],
            ) == (s, Ok::<ExprV, anyhow::Error>(args[i])) by {
                lemma_defaults_keep_expr(s, args[i]);
            }
            lemma_fold_seq_keeps(s, args, at_expr::<F>());
        },
    }
}

/// A pass that follows the defaults leaves the items of an interpolated
/// string as they are.
pub proof fn lemma_defaults_keep_items<F: RqFold>(s: F, items: Seq<InterpolateItem<ExprV>>)
    requires
        follows_defaults::<F>(),
    ensures
        default_interpolate_items(s, items) == (
            s,
            Ok::<Seq<InterpolateItem<ExprV>>, anyhow::Error>(items),
        ),
    decreases items,
{
    assert forall|i: int| 0 <= i < items.len() implies #[trigger] at_interpolate_item::<F>()(
        s,
        items[i],
    ) == (s, Ok::<InterpolateItem<ExprV>, anyhow::Error>(items[i])) by {
        match items[i] {
            InterpolateItem::String(_) => {},
            InterpolateItem::Expr(expr) => {
                lemma_defaults_keep_expr(s, *expr);
            },
        }
    }
    lemma_fold_seq_keeps(s, items, at_interpolate_item::<F>());
}

/// A pass that follows the defaults leaves the columns of every table
/// reference as they are.
pub proof fn lemma_defaults_keep_table_ref<F: RqFold>(s: F, table_ref: TableRefV)
    requires
        follows_defaults::<F>(),
    ensures
        s.table_ref_step(table_ref) == (s, Ok::<TableRefV, anyhow::Error>(table_ref)),
{
    lemma_fold_seq_keeps(s, table_ref.columns, at_table_column::<F>());
}

/// A pass that follows the defaults leaves every computed column as it is.
pub proof fn lemma_defaults_keep_compute<F: RqFold>(s: F, compute: ComputeV)
    requires
        follows_defaults::<F>(),
    ensures
        s.compute_step(compute) == (s, Ok::<ComputeV, anyhow::Error>(compute)),
{
    lemma_defaults_keep_expr(s, compute.expr);
    match compute.window {
        Some(window) => {
            match window.frame.range.start {
                Some(start) => lemma_defaults_keep_expr(s, start),
                None => {},
            }
            match window.frame.range.end {
                Some(end) => lemma_defaults_keep_expr(s, end),
                None => {},
            }
            lemma_fold_seq_keeps(s, window.partition, at_cid::<F>());
            lemma_fold_seq_keeps(s, window.sort, at_column_sort::<F>());
        },
        None => {},
    }
}

/// A pass that follows the defaults leaves every transform as it is.
pub proof fn lemma_defaults_keep_transform<F: RqFold>(s: F, transform: TransformV)
    requires
        follows_defaults::<F>(),
    ensures
        s.transform_step(transform) == (s, Ok::<TransformV, anyhow::Error>(transform)),
{
    match transform {
        TransformV::From(table) => lemma_defaults_keep_table_ref(s, table),
        TransformV::Compute(compute) => lemma_defaults_keep_compute(s, compute),
        TransformV::Select(ids) => lemma_fold_seq_keeps(s, ids, at_cid::<F>()),
        TransformV::Filter(cond) => lemma_defaults_keep_expr(s, cond),
        TransformV::Aggregate { partition, compute } => {
            lemma_fold_seq_keeps(s, partition, at_cid::<F>());
            lemma_fold_seq_keeps(s, compute, at_cid::<F>());
        },
        TransformV::Sort(sorts) => lemma_fold_seq_keeps(s, sorts, at_column_sort::<F>()),
        TransformV::Take(take) => {
            lemma_fold_seq_keeps(s, take.partition, at_cid::<F>());
            lemma_fold_seq_keeps(s, take.sort, at_column_sort::<F>());
        },
        TransformV::Join { side, with, filter } => {
            lemma_defaults_keep_table_ref(s, with);
            lemma_defaults_keep_expr(s, filter);
        },
        TransformV::Append(table) => lemma_defaults_keep_table_ref(s, table),
        TransformV::Unique => {},
    }
}

/// A pass that follows the defaults leaves every relation as it is.
pub proof fn lemma_defaults_keep_relation<F: RqFold>(s: F, relation: RelationV)
    requires
        follows_defaults::<F>(),
    ensures
        s.relation_step(relation) == (s, Ok::<RelationV, anyhow::Error>(relation)),
{
    match relation.kind {
        RelationKindV::ExternRef(_) => {},
        RelationKindV::Pipeline(transforms) => {
            assert forall|i: int| 0 <= i < transforms.len() implies #[trigger] at_transform::<F>()(
                s,
                transforms[i],
            ) == (s, Ok::<TransformV, anyhow::Error>(transforms[i])) by {
                lemma_defaults_keep_transform(s, transforms[i]);
            }
            lemma_fold_seq_keeps(s, transforms, at_transform::<F>());
        },
        RelationKindV::Literal(_) => {},
        RelationKindV::SString(items) => lemma_defaults_keep_items(s, items),
    }
}

/// Folding with a pass that follows the defaults gives every query back as
/// it was, and leaves the pass in the state it was in.
pub proof fn lemma_defaults_keep_query<F: RqFold>(s: F, query: QueryV)
    requires
        follows_defaults::<F>(),
    ensures
        default_query(s, query) == (s, Ok::<QueryV, anyhow::Error>(query)),
        s.query_step(query) == (s, Ok::<QueryV, anyhow::Error>(query)),
{
    lemma_defaults_keep_relation(s, query.relation);
    assert forall|i: int| 0 <= i < query.tables.len() implies #[trigger] at_table::<F>()(
        s,
        query.tables[i],
    ) == (s, Ok::<TableDeclV, anyhow::Error>(query.tables[i])) by {
        lemma_defaults_keep_relation(s, query.tables[i].relation);
    }
    lemma_fold_seq_keeps(s, query.tables, at_table::<F>());
}

/// What `fold_query` returns for a pass that follows the defaults: a query
/// with the view of the one it was given, the pass left in the state it was
/// in. `before` is the state of the pass at the call, `left` the state that
/// the call left it in, and `r` what the call returned.
pub proof fn lemma_fold_query_with_defaults<F: RqFold>(
    before: F,
    query: Query,
    left: F,
    r: Result<Query, anyhow::Error>,
)
    requires
        follows_defaults::<F>(),
        settled(left, r) == default_query(before, query@),
    ensures
        left == before,
        r is Ok,
        r->Ok_0@ == query@,
{
    lemma_defaults_keep_query(before, query@);
}

/// A fold over a sequence stops at the first step that fails: where the
/// steps on the first `i` items succeed and the step on the next one fails,
/// the fold of the whole sequence ends where that step ended, with its
/// error, whatever the items behind it are.
pub proof fn lemma_fold_seq_stops<S, A, B>(
    s: S,
    items: Seq<A>,
    step: spec_fn(S, A) -> Stepped<S, B>,
    i: int,
)
    requires
        0 <= i < items.len(),
        fold_seq(s, items.take(i), step).1 is Ok,
        step(fold_seq(s, items.take(i), step).0, items[i]).1 is Err,
    ensures
        fold_seq(s, items, step) == (
            step(fold_seq(s, items.take(i), step).0, items[i]).0,
            Err::<Seq<B>, anyhow::Error>(
                step(fold_seq(s, items.take(i), step).0, items[i]).1->Err_0,
            ),
        ),
    decreases i,
{
    if i == 0 {
        assert(items.take(0) =~= Seq::empty());
    } else {
        let (s1, r1) = step(s, items.first());
        assert(items.take(i).first() == items.first());
        assert(items.take(i).drop_first() =~= items.drop_first().take(i - 1));
        assert(items.drop_first()[i - 1] == items[i]);
        lemma_fold_seq_stops(s1, items.drop_first(), step, i - 1);
    }
}

/// A fold over a sequence goes from left to right: the fold of `first`
/// followed by `second` is the fold of `first`, then, if that succeeds, the
/// fold of `second` from the state that it left.
pub proof fn lemma_fold_seq_in_order<S, A, B>(
    s: S,
    first: Seq<A>,
    second: Seq<A>,
    step: spec_fn(S, A) -> Stepped<S, B>,
)
    ensures
        fold_seq(s, first + second, step) == match fold_seq(s, first, step).1 {
            Ok(done) => after(done, fold_seq(fold_seq(s, first, step).0, second, step)),
            Err(e) => (fold_seq(s, first, step).0, Err::<Seq<B>, anyhow::Error>(e)),
        },
    decreases first.len(),
{
    if first.len() == 0 {
        assert(first + second =~= second);
        match fold_seq(s, second, step).1 {
            Ok(more) => assert(Seq::<B>::empty() + more =~= more),
            Err(_) => {},
        }
    } else {
        let whole = first + second;
        assert(whole.first() == first.first());
        assert(whole.drop_first() =~= first.drop_first() + second);
        let (s1, r1) = step(s, first.first());
        match r1 {
            Ok(b) => {
                lemma_fold_seq_in_order(s1, first.drop_first(), second, step);
                let (s2, r2) = fold_seq(s1, first.drop_first(), step);
                match r2 {
                    Ok(done) => match fold_seq(s2, second, step).1 {
                        Ok(more) => assert(seq![b] + (done + more) =~= (seq![b] + done) + more),
                        Err(_) => {},
                    },
                    Err(_) => {},
                }
            },
            Err(_) => {},
        }
    }
}

/// A fold over a sequence that succeeds gives one node for each item.
pub proof fn lemma_fold_seq_len<S, A, B>(s: S, items: Seq<A>, step: spec_fn(S, A) -> Stepped<S, B>)
    requires
        fold_seq(s, items, step).1 is Ok,
    ensures
        fold_seq(s, items, step).1->Ok_0.len() == items.len(),
    decreases items.len(),
{
    if items.len() > 0 {
        let (s1, r1) = step(s, items.first());
        lemma_fold_seq_len(s1, items.drop_first(), step);
    }
}

} // verus!
