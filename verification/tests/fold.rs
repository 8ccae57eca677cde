use prql_compiler::ast::pl::{
    BinOp, ColumnSort, InterpolateItem, JoinSide, Literal, Range, SortDirection, SwitchCase, UnOp,
    WindowFrame, WindowKind,
};
use prql_compiler::ast::rq::fold::{
    fold_cid, fold_cids, fold_column_sorts, fold_compute, fold_expr, fold_expr_kind,
    fold_interpolate_item, fold_interpolate_items, fold_optional_box, fold_query, fold_relation,
    fold_relation_column, fold_relation_kind, fold_switch_case, fold_table, fold_table_ref,
    fold_transform, fold_transforms, fold_window, RqFold, Stepped,
};
use prql_compiler::ast::rq::view::{
    ComputeV, ExprKindV, ExprV, PipelineV, QueryV, RelationKindV, RelationV, TableDeclV,
    TableRefV, TransformV,
};
use prql_compiler::ast::rq::{
    CId, Compute, Expr, ExprKind, Query, QueryDef, Relation, RelationColumn, RelationKind,
    RelationLiteral, TId, TableDecl, TableRef, Take, Transform, Window,
};

type Fallible<T> = Result<T, anyhow::Error>;

/// A pass for every test here. As it stands it does at every node what the
/// default does; each field switches on one thing of its own.
#[derive(Default)]
struct Pass {
    /// Every column id and column that was handed to the pass, in order.
    log: Vec<String>,
    /// Give the column ids the numbers 100, 101, ... in the order of visit.
    renumber: bool,
    next: usize,
    /// Fail at the expression that is this integer literal.
    fail_on: Option<i64>,
    /// Fail at this column id.
    fail_on_cid: Option<usize>,
    /// Give every table reference this name.
    rename: Option<String>,
    /// Replace every filter by `Unique`, without looking into it.
    drop_filters: bool,
}

impl RqFold for Pass {
    fn transform_step(self, _: TransformV) -> Stepped<Self, TransformV> {
        unreachable!()
    }

    fn transforms_step(self, _: PipelineV) -> Stepped<Self, PipelineV> {
        unreachable!()
    }

    fn table_step(self, _: TableDeclV) -> Stepped<Self, TableDeclV> {
        unreachable!()
    }

    fn relation_step(self, _: RelationV) -> Stepped<Self, RelationV> {
        unreachable!()
    }

    fn relation_kind_step(self, _: RelationKindV) -> Stepped<Self, RelationKindV> {
        unreachable!()
    }

    fn table_ref_step(self, _: TableRefV) -> Stepped<Self, TableRefV> {
        unreachable!()
    }

    fn query_step(self, _: QueryV) -> Stepped<Self, QueryV> {
        unreachable!()
    }

    fn expr_step(self, _: ExprV) -> Stepped<Self, ExprV> {
        unreachable!()
    }

    fn expr_kind_step(self, _: ExprKindV) -> Stepped<Self, ExprKindV> {
        unreachable!()
    }

    fn relation_column_step(self, _: RelationColumn) -> Stepped<Self, RelationColumn> {
        unreachable!()
    }

    fn cid_step(self, _: CId) -> Stepped<Self, CId> {
        unreachable!()
    }

    fn compute_step(self, _: ComputeV) -> Stepped<Self, ComputeV> {
        unreachable!()
    }

    fn fold_transform(&mut self, transform: Transform) -> Fallible<Transform> {
        if self.drop_filters {
            if let Transform::Filter(_) = transform {
                return Ok(Transform::Unique);
            }
        }
        fold_transform(self, transform)
    }

    fn fold_transforms(&mut self, transforms: Vec<Transform>) -> Fallible<Vec<Transform>> {
        fold_transforms(self, transforms)
    }

    fn fold_table(&mut self, table: TableDecl) -> Fallible<TableDecl> {
        fold_table(self, table)
    }

    fn fold_relation(&mut self, relation: Relation) -> Fallible<Relation> {
        fold_relation(self, relation)
    }

    fn fold_relation_kind(&mut self, rel_kind: RelationKind) -> Fallible<RelationKind> {
        fold_relation_kind(self, rel_kind)
    }

    fn fold_table_ref(&mut self, table_ref: TableRef) -> Fallible<TableRef> {
        let mut table_ref = fold_table_ref(self, table_ref)?;
        if let Some(name) = &self.rename {
            table_ref.name = Some(name.clone());
        }
        Ok(table_ref)
    }

    fn fold_query(&mut self, query: Query) -> Fallible<Query> {
        fold_query(self, query)
    }

    fn fold_expr(&mut self, expr: Expr) -> Fallible<Expr> {
        if let (Some(n), ExprKind::Literal(Literal::Integer(m))) = (self.fail_on, &expr.kind) {
            if n == *m {
                return Err(anyhow::Error::msg(format!("no {n} here")));
            }
        }
        fold_expr(self, expr)
    }

    fn fold_expr_kind(&mut self, kind: ExprKind) -> Fallible<ExprKind> {
        fold_expr_kind(self, kind)
    }

    fn fold_relation_column(&mut self, col: RelationColumn) -> Fallible<RelationColumn> {
        self.log.push(match &col {
            RelationColumn::Single(Some(name)) => format!("col {name}"),
            RelationColumn::Single(None) => "col".to_string(),
            RelationColumn::Wildcard => "col *".to_string(),
        });
        fold_relation_column(self, col)
    }

    fn fold_cid(&mut self, cid: CId) -> Fallible<CId> {
        if self.fail_on_cid == Some(cid.0) {
            return Err(anyhow::Error::msg(format!("no column {}", cid.0)));
        }
        self.log.push(format!("cid {}", cid.0));
        if self.renumber {
            self.next += 1;
            Ok(CId(99 + self.next))
        } else {
            fold_cid(self, cid)
        }
    }

    fn fold_compute(&mut self, compute: Compute) -> Fallible<Compute> {
        fold_compute(self, compute)
    }
}

fn col(id: usize) -> Expr {
    Expr { kind: ExprKind::ColumnRef(CId(id)) }
}

fn lit(n: i64) -> Expr {
    Expr { kind: ExprKind::Literal(Literal::Integer(n)) }
}

fn binary(left: Expr, op: BinOp, right: Expr) -> Expr {
    Expr { kind: ExprKind::Binary { left: Box::new(left), op, right: Box::new(right) } }
}

fn cids(ids: &[usize]) -> Vec<CId> {
    ids.iter().map(|id| CId(*id)).collect()
}

fn asc(id: usize) -> ColumnSort<CId> {
    ColumnSort { column: CId(id), direction: SortDirection::Asc }
}

fn desc(id: usize) -> ColumnSort<CId> {
    ColumnSort { column: CId(id), direction: SortDirection::Desc }
}

fn named(name: &str) -> RelationColumn {
    RelationColumn::Single(Some(name.to_string()))
}

fn table_ref(source: usize, name: &str, columns: &[(&str, usize)]) -> TableRef {
    TableRef {
        source: TId(source),
        columns: columns.iter().map(|(n, id)| (named(n), CId(*id))).collect(),
        name: Some(name.to_string()),
    }
}

fn pipeline(transforms: Vec<Transform>) -> Relation {
    Relation { kind: RelationKind::Pipeline(transforms), columns: vec![RelationColumn::Wildcard] }
}

fn query(relation: Relation, tables: Vec<TableDecl>) -> Query {
    Query { def: QueryDef { version: Some("0.4".to_string()), other: vec![] }, tables, relation }
}

fn log(entries: &[&str]) -> Vec<String> {
    entries.iter().map(|e| e.to_string()).collect()
}

/// A query with a node of every kind in it.
fn big_query() -> Query {
    let window = Window {
        frame: WindowFrame {
            kind: WindowKind::Rows,
            range: Range { start: Some(lit(-1)), end: Some(col(20)) },
        },
        partition: cids(&[21, 22]),
        sort: vec![asc(23), desc(24)],
    };
    let main = pipeline(vec![
        Transform::From(table_ref(0, "albums", &[("id", 1), ("title", 2)])),
        Transform::Compute(Compute {
            id: CId(3),
            expr: binary(col(1), BinOp::Add, lit(1)),
            window: Some(window),
            is_aggregation: false,
        }),
        Transform::Compute(Compute {
            id: CId(4),
            expr: Expr { kind: ExprKind::Unary { op: UnOp::Neg, expr: Box::new(col(3)) } },
            window: None,
            is_aggregation: true,
        }),
        Transform::Select(cids(&[1, 2, 3])),
        Transform::Filter(binary(col(1), BinOp::Gt, lit(5))),
        Transform::Aggregate { partition: cids(&[1]), compute: cids(&[4, 3]) },
        Transform::Sort(vec![desc(2), asc(1)]),
        Transform::Take(Take {
            range: Range { start: None, end: Some(lit(10)) },
            partition: cids(&[2]),
            sort: vec![asc(3)],
        }),
        Transform::Join {
            side: JoinSide::Left,
            with: table_ref(1, "artists", &[("id", 5)]),
            filter: binary(col(1), BinOp::Eq, col(5)),
        },
        Transform::Append(table_ref(2, "more", &[("id", 6)])),
        Transform::Unique,
        Transform::Filter(Expr {
            kind: ExprKind::Switch(vec![
                SwitchCase { condition: col(7), value: lit(1) },
                SwitchCase { condition: lit(0), value: col(8) },
            ]),
        }),
        Transform::Filter(Expr {
            kind: ExprKind::BuiltInFunction {
                name: "std.concat".to_string(),
                args: vec![
                    Expr {
                        kind: ExprKind::SString(vec![
                            InterpolateItem::String("upper(".to_string()),
                            InterpolateItem::Expr(Box::new(col(9))),
                            InterpolateItem::String(")".to_string()),
                        ]),
                    },
                    Expr {
                        kind: ExprKind::FString(vec![InterpolateItem::Expr(Box::new(col(10)))]),
                    },
                    Expr { kind: ExprKind::Literal(Literal::String("x".to_string())) },
                ],
            },
        }),
    ]);
    let tables = vec![
        TableDecl {
            id: TId(0),
            name: Some("albums".to_string()),
            relation: Relation {
                kind: RelationKind::ExternRef(table_ref(0, "albums", &[("id", 11)])),
                columns: vec![named("id"), RelationColumn::Wildcard],
            },
        },
        TableDecl {
            id: TId(1),
            name: None,
            relation: Relation {
                kind: RelationKind::Literal(RelationLiteral {
                    columns: vec!["a".to_string()],
                    rows: vec![vec![Literal::Integer(1)], vec![Literal::Null]],
                }),
                columns: vec![named("a")],
            },
        },
        TableDecl {
            id: TId(2),
            name: Some("raw".to_string()),
            relation: Relation {
                kind: RelationKind::SString(vec![
                    InterpolateItem::String("SELECT * FROM ".to_string()),
                    InterpolateItem::Expr(Box::new(col(12))),
                ]),
                columns: vec![],
            },
        },
        TableDecl {
            id: TId(3),
            name: Some("sub".to_string()),
            relation: pipeline(vec![Transform::Select(cids(&[13]))]),
        },
    ];
    query(main, tables)
}

#[test]
fn folding_with_the_defaults_gives_the_query_back() {
    let mut pass = Pass::default();
    let out = pass.fold_query(big_query()).unwrap();
    assert_eq!(out, big_query());
}

#[test]
fn folding_an_empty_query_with_the_defaults_gives_it_back() {
    let mut pass = Pass::default();
    let out = fold_query(&mut pass, query(pipeline(vec![]), vec![])).unwrap();
    assert_eq!(out, query(pipeline(vec![]), vec![]));
    assert!(pass.log.is_empty());
}

#[test]
fn a_failure_deep_inside_a_pipeline_is_the_result_of_the_fold() {
    // The literal 0 is the condition of the second case of a switch, in a
    // filter near the end of the pipeline.
    let mut pass = Pass { fail_on: Some(0), ..Pass::default() };
    let err = pass.fold_query(big_query()).unwrap_err();
    assert_eq!(err.to_string(), "no 0 here");
    assert_eq!(pass.log.last().unwrap(), "cid 7");
}

#[test]
fn the_range_of_a_take_is_never_handed_to_the_pass() {
    // The literal 10 is the end of the range of the take.
    let mut pass = Pass { fail_on: Some(10), ..Pass::default() };
    assert_eq!(pass.fold_query(big_query()).unwrap(), big_query());
}

#[test]
fn nothing_behind_a_failure_is_visited() {
    // The literal 5 stands in the filter, behind the selection and before
    // the aggregation.
    let mut pass = Pass { fail_on: Some(5), ..Pass::default() };
    let err = pass.fold_query(big_query()).unwrap_err();
    assert_eq!(err.to_string(), "no 5 here");
    assert_eq!(pass.log.last().unwrap(), "cid 1");
    assert!(!pass.log.contains(&"cid 5".to_string()));
    assert!(!pass.log.contains(&"cid 13".to_string()));
}

#[test]
fn column_ids_are_numbered_in_the_order_of_the_pipeline() {
    let mut pass = Pass { renumber: true, ..Pass::default() };
    let given = pipeline(vec![
        Transform::Select(cids(&[7, 8])),
        Transform::Filter(binary(col(8), BinOp::Lt, col(7))),
        Transform::Join {
            side: JoinSide::Inner,
            with: table_ref(4, "t", &[("a", 1), ("b", 2)]),
            filter: binary(col(7), BinOp::Eq, col(1)),
        },
    ]);
    let out = pass.fold_relation(given).unwrap();
    let expected = pipeline(vec![
        Transform::Select(cids(&[100, 101])),
        Transform::Filter(binary(col(102), BinOp::Lt, col(103))),
        Transform::Join {
            side: JoinSide::Inner,
            with: table_ref(4, "t", &[("a", 104), ("b", 105)]),
            filter: binary(col(106), BinOp::Eq, col(107)),
        },
    ]);
    assert_eq!(out, expected);
    assert_eq!(
        pass.log,
        log(&[
            "cid 7", "cid 8", "cid 8", "cid 7", "col a", "cid 1", "col b", "cid 2", "cid 7",
            "cid 1",
        ])
    );
}

#[test]
fn renaming_table_references_leaves_column_ids_alone() {
    let given = |name: &str| {
        query(
            pipeline(vec![
                Transform::From(table_ref(0, name, &[("x", 1)])),
                Transform::Filter(binary(col(1), BinOp::Eq, lit(5))),
                Transform::Select(cids(&[1])),
            ]),
            vec![],
        )
    };
    let mut pass = Pass { rename: Some("renamed".to_string()), ..Pass::default() };
    let out = pass.fold_query(given("T")).unwrap();
    assert_eq!(out, given("renamed"));
    match &out.relation.kind {
        RelationKind::Pipeline(stages) => {
            assert_eq!(stages[1], Transform::Filter(binary(col(1), BinOp::Eq, lit(5))));
            assert_eq!(stages[2], Transform::Select(cids(&[1])));
        },
        other => panic!("not a pipeline: {other:?}"),
    }
}

#[test]
fn a_query_is_folded_relation_first_then_its_tables() {
    let mut pass = Pass::default();
    pass.fold_query(big_query()).unwrap();
    let first_of_tables = pass.log.iter().position(|e| e == "cid 12").unwrap();
    let last_of_relation = pass.log.iter().rposition(|e| e == "cid 10").unwrap();
    assert!(last_of_relation < first_of_tables);
    assert_eq!(pass.log[pass.log.len() - 2..], log(&["cid 12", "cid 13"])[..]);
    // A reference to a table outside the query is not looked into.
    assert!(!pass.log.contains(&"cid 11".to_string()));
}

#[test]
fn a_compute_is_folded_id_expression_window() {
    let mut pass = Pass { renumber: true, ..Pass::default() };
    let given = Compute {
        id: CId(3),
        expr: binary(col(1), BinOp::Add, col(2)),
        window: Some(Window {
            frame: WindowFrame {
                kind: WindowKind::Range,
                range: Range { start: Some(col(4)), end: Some(col(5)) },
            },
            partition: cids(&[6, 7]),
            sort: vec![asc(8), desc(9)],
        }),
        is_aggregation: true,
    };
    let out = fold_compute(&mut pass, given).unwrap();
    let expected = Compute {
        id: CId(100),
        expr: binary(col(101), BinOp::Add, col(102)),
        window: Some(Window {
            frame: WindowFrame {
                kind: WindowKind::Range,
                range: Range { start: Some(col(103)), end: Some(col(104)) },
            },
            partition: cids(&[105, 106]),
            sort: vec![asc(107), desc(108)],
        }),
        is_aggregation: true,
    };
    assert_eq!(out, expected);
    assert_eq!(
        pass.log,
        log(&[
            "cid 3", "cid 1", "cid 2", "cid 4", "cid 5", "cid 6", "cid 7", "cid 8", "cid 9",
        ])
    );
}

#[test]
fn a_window_with_open_bounds_keeps_them_open() {
    let mut pass = Pass { renumber: true, ..Pass::default() };
    let given = Window {
        frame: WindowFrame { kind: WindowKind::Rows, range: Range { start: None, end: None } },
        partition: cids(&[1]),
        sort: vec![],
    };
    let out = fold_window(&mut pass, given).unwrap();
    let expected = Window {
        frame: WindowFrame { kind: WindowKind::Rows, range: Range { start: None, end: None } },
        partition: cids(&[100]),
        sort: vec![],
    };
    assert_eq!(out, expected);
}

#[test]
fn an_aggregate_is_folded_partition_then_compute() {
    let mut pass = Pass { renumber: true, ..Pass::default() };
    let given = Transform::Aggregate { partition: cids(&[5, 6]), compute: cids(&[7]) };
    let out = fold_transform(&mut pass, given).unwrap();
    assert_eq!(out, Transform::Aggregate { partition: cids(&[100, 101]), compute: cids(&[102]) });
    assert_eq!(pass.log, log(&["cid 5", "cid 6", "cid 7"]));
}

#[test]
fn a_take_is_folded_partition_then_sort_and_keeps_its_range() {
    let mut pass = Pass { renumber: true, ..Pass::default() };
    let given = Transform::Take(Take {
        range: Range { start: Some(col(1)), end: Some(lit(3)) },
        partition: cids(&[2]),
        sort: vec![desc(3)],
    });
    let out = fold_transform(&mut pass, given).unwrap();
    let expected = Transform::Take(Take {
        range: Range { start: Some(col(1)), end: Some(lit(3)) },
        partition: cids(&[100]),
        sort: vec![desc(101)],
    });
    assert_eq!(out, expected);
    assert_eq!(pass.log, log(&["cid 2", "cid 3"]));
}

#[test]
fn a_sort_keeps_its_directions() {
    let mut pass = Pass { renumber: true, ..Pass::default() };
    let out = fold_column_sorts(&mut pass, vec![desc(4), asc(5), desc(6)]).unwrap();
    assert_eq!(out, vec![desc(100), asc(101), desc(102)]);
    let out = fold_transform(&mut pass, Transform::Sort(vec![asc(1)])).unwrap();
    assert_eq!(out, Transform::Sort(vec![asc(103)]));
}

#[test]
fn from_and_append_fold_their_table_reference() {
    let mut pass = Pass { rename: Some("n".to_string()), ..Pass::default() };
    let out = fold_transform(&mut pass, Transform::From(table_ref(1, "a", &[("x", 1)]))).unwrap();
    assert_eq!(out, Transform::From(table_ref(1, "n", &[("x", 1)])));
    let out = fold_transform(&mut pass, Transform::Append(table_ref(2, "b", &[]))).unwrap();
    assert_eq!(out, Transform::Append(table_ref(2, "n", &[])));
    let out = fold_transform(&mut pass, Transform::Unique).unwrap();
    assert_eq!(out, Transform::Unique);
}

#[test]
fn a_table_reference_is_folded_column_then_id_pair_by_pair() {
    let mut pass = Pass { renumber: true, ..Pass::default() };
    let given = TableRef {
        source: TId(9),
        columns: vec![
            (named("a"), CId(1)),
            (RelationColumn::Wildcard, CId(2)),
            (RelationColumn::Single(None), CId(3)),
        ],
        name: None,
    };
    let out = fold_table_ref(&mut pass, given).unwrap();
    let expected = TableRef {
        source: TId(9),
        columns: vec![
            (named("a"), CId(100)),
            (RelationColumn::Wildcard, CId(101)),
            (RelationColumn::Single(None), CId(102)),
        ],
        name: None,
    };
    assert_eq!(out, expected);
    assert_eq!(pass.log, log(&["col a", "cid 1", "col *", "cid 2", "col", "cid 3"]));
}

#[test]
fn a_table_keeps_its_id_and_name() {
    let mut pass = Pass { renumber: true, ..Pass::default() };
    let given = TableDecl {
        id: TId(4),
        name: Some("t".to_string()),
        relation: pipeline(vec![Transform::Select(cids(&[1]))]),
    };
    let out = fold_table(&mut pass, given).unwrap();
    let expected = TableDecl {
        id: TId(4),
        name: Some("t".to_string()),
        relation: pipeline(vec![Transform::Select(cids(&[100]))]),
    };
    assert_eq!(out, expected);
}

#[test]
fn a_relation_keeps_its_columns() {
    let mut pass = Pass { renumber: true, ..Pass::default() };
    let given = Relation {
        kind: RelationKind::Pipeline(vec![Transform::Select(cids(&[1]))]),
        columns: vec![named("a"), RelationColumn::Wildcard],
    };
    let out = fold_relation(&mut pass, given).unwrap();
    assert_eq!(out.columns, vec![named("a"), RelationColumn::Wildcard]);
    assert_eq!(out.kind, RelationKind::Pipeline(vec![Transform::Select(cids(&[100]))]));
    // What is known of the columns is never handed to the pass.
    assert_eq!(pass.log, log(&["cid 1"]));
}

#[test]
fn extern_refs_and_literals_pass_through() {
    let mut pass = Pass { renumber: true, rename: Some("n".to_string()), ..Pass::default() };
    let out =
        fold_relation_kind(&mut pass, RelationKind::ExternRef(table_ref(1, "t", &[("a", 1)])))
            .unwrap();
    assert_eq!(out, RelationKind::ExternRef(table_ref(1, "t", &[("a", 1)])));
    let lit = || RelationLiteral { columns: vec!["a".to_string()], rows: vec![vec![]] };
    let out = fold_relation_kind(&mut pass, RelationKind::Literal(lit())).unwrap();
    assert_eq!(out, RelationKind::Literal(lit()));
    assert!(pass.log.is_empty());
}

#[test]
fn an_interpolated_relation_folds_its_expressions() {
    let mut pass = Pass { renumber: true, ..Pass::default() };
    let given = RelationKind::SString(vec![
        InterpolateItem::Expr(Box::new(col(1))),
        InterpolateItem::String(" x ".to_string()),
        InterpolateItem::Expr(Box::new(col(2))),
    ]);
    let out = fold_relation_kind(&mut pass, given).unwrap();
    let expected = RelationKind::SString(vec![
        InterpolateItem::Expr(Box::new(col(100))),
        InterpolateItem::String(" x ".to_string()),
        InterpolateItem::Expr(Box::new(col(101))),
    ]);
    assert_eq!(out, expected);
}

#[test]
fn a_binary_expression_is_folded_left_then_right() {
    let mut pass = Pass { renumber: true, ..Pass::default() };
    let given = binary(binary(col(3), BinOp::Mul, col(2)), BinOp::Sub, col(1));
    let out = fold_expr(&mut pass, given).unwrap();
    assert_eq!(out, binary(binary(col(100), BinOp::Mul, col(101)), BinOp::Sub, col(102)));
    assert_eq!(pass.log, log(&["cid 3", "cid 2", "cid 1"]));
}

#[test]
fn the_kinds_of_expression_fold_their_parts_in_order() {
    let mut pass = Pass { renumber: true, ..Pass::default() };
    let out = fold_expr_kind(&mut pass, ExprKind::Unary { op: UnOp::Not, expr: Box::new(col(1)) })
        .unwrap();
    assert_eq!(out, ExprKind::Unary { op: UnOp::Not, expr: Box::new(col(100)) });
    let out = fold_expr_kind(
        &mut pass,
        ExprKind::Switch(vec![
            SwitchCase { condition: col(1), value: col(2) },
            SwitchCase { condition: col(3), value: col(4) },
        ]),
    )
    .unwrap();
    let expected = ExprKind::Switch(vec![
        SwitchCase { condition: col(101), value: col(102) },
        SwitchCase { condition: col(103), value: col(104) },
    ]);
    assert_eq!(out, expected);
    let out = fold_expr_kind(
        &mut pass,
        ExprKind::BuiltInFunction { name: "f".to_string(), args: vec![col(9), lit(1), col(8)] },
    )
    .unwrap();
    let expected = ExprKind::BuiltInFunction {
        name: "f".to_string(),
        args: vec![col(105), lit(1), col(106)],
    };
    assert_eq!(out, expected);
    let out =
        fold_expr_kind(&mut pass, ExprKind::FString(vec![InterpolateItem::Expr(Box::new(col(5)))]))
            .unwrap();
    assert_eq!(out, ExprKind::FString(vec![InterpolateItem::Expr(Box::new(col(107)))]));
    let out = fold_expr_kind(&mut pass, ExprKind::Literal(Literal::Boolean(true))).unwrap();
    assert_eq!(out, ExprKind::Literal(Literal::Boolean(true)));
    assert_eq!(
        pass.log,
        log(&["cid 1", "cid 1", "cid 2", "cid 3", "cid 4", "cid 9", "cid 8", "cid 5"])
    );
}

#[test]
fn a_switch_case_is_folded_condition_then_value() {
    let mut pass = Pass { renumber: true, ..Pass::default() };
    let out = fold_switch_case(&mut pass, SwitchCase { condition: col(8), value: col(9) }).unwrap();
    assert_eq!(out, SwitchCase { condition: col(100), value: col(101) });
    assert_eq!(pass.log, log(&["cid 8", "cid 9"]));
}

#[test]
fn interpolated_text_passes_through() {
    let mut pass = Pass { renumber: true, ..Pass::default() };
    let out = fold_interpolate_item(&mut pass, InterpolateItem::String("abc".to_string())).unwrap();
    assert_eq!(out, InterpolateItem::String("abc".to_string()));
    let out = fold_interpolate_item(&mut pass, InterpolateItem::Expr(Box::new(col(1)))).unwrap();
    assert_eq!(out, InterpolateItem::Expr(Box::new(col(100))));
    let out = fold_interpolate_items(&mut pass, vec![]).unwrap();
    assert_eq!(out, vec![]);
}

#[test]
fn an_optional_expression_is_folded_where_it_is_there() {
    let mut pass = Pass { renumber: true, ..Pass::default() };
    assert_eq!(fold_optional_box(&mut pass, None).unwrap(), None);
    assert_eq!(
        fold_optional_box(&mut pass, Some(Box::new(col(1)))).unwrap(),
        Some(Box::new(col(100)))
    );
    let mut pass = Pass { fail_on: Some(1), ..Pass::default() };
    assert_eq!(
        fold_optional_box(&mut pass, Some(Box::new(lit(1)))).unwrap_err().to_string(),
        "no 1 here"
    );
}

#[test]
fn fold_cids_visits_in_order() {
    let mut pass = Pass { renumber: true, ..Pass::default() };
    let out = fold_cids(&mut pass, cids(&[3, 1, 2])).unwrap();
    assert_eq!(out, cids(&[100, 101, 102]));
    assert_eq!(pass.log, log(&["cid 3", "cid 1", "cid 2"]));
    assert_eq!(fold_cids(&mut pass, vec![]).unwrap(), vec![]);
}

#[test]
fn fold_cids_stops_at_the_first_failure() {
    let mut pass = Pass { fail_on_cid: Some(13), ..Pass::default() };
    let err = fold_cids(&mut pass, cids(&[1, 13, 3, 13])).unwrap_err();
    assert_eq!(err.to_string(), "no column 13");
    assert_eq!(pass.log, log(&["cid 1"]));
}

#[test]
fn a_pipeline_stops_at_the_first_failing_transform() {
    let mut pass = Pass { fail_on_cid: Some(2), ..Pass::default() };
    let err = fold_transforms(
        &mut pass,
        vec![
            Transform::Select(cids(&[1])),
            Transform::Aggregate { partition: cids(&[2]), compute: cids(&[3]) },
            Transform::Select(cids(&[4])),
        ],
    )
    .unwrap_err();
    assert_eq!(err.to_string(), "no column 2");
    assert_eq!(pass.log, log(&["cid 1"]));
}

#[test]
fn a_join_that_fails_in_its_table_never_folds_its_filter() {
    let mut pass = Pass { fail_on_cid: Some(2), ..Pass::default() };
    let given = Transform::Join {
        side: JoinSide::Full,
        with: table_ref(1, "t", &[("a", 1), ("b", 2), ("c", 3)]),
        filter: col(4),
    };
    let err = fold_transform(&mut pass, given).unwrap_err();
    assert_eq!(err.to_string(), "no column 2");
    assert_eq!(pass.log, log(&["col a", "cid 1", "col b"]));
}

#[test]
fn the_error_of_the_pass_comes_back_as_it_was() {
    #[derive(Debug)]
    struct Marker(u32);
    impl std::fmt::Display for Marker {
        fn fmt(&self, f: &mut std::fmt::Formatter<'_>) -> std::fmt::Result {
            f.write_str("marker")
        }
    }
    impl std::error::Error for Marker {}
    struct Failing;
    impl RqFold for Failing {
        fn transform_step(self, _: TransformV) -> Stepped<Self, TransformV> {
            unreachable!()
        }
        fn transforms_step(self, _: PipelineV) -> Stepped<Self, PipelineV> {
            unreachable!()
        }
        fn table_step(self, _: TableDeclV) -> Stepped<Self, TableDeclV> {
            unreachable!()
        }
        fn relation_step(self, _: RelationV) -> Stepped<Self, RelationV> {
            unreachable!()
        }
        fn relation_kind_step(self, _: RelationKindV) -> Stepped<Self, RelationKindV> {
            unreachable!()
        }
        fn table_ref_step(self, _: TableRefV) -> Stepped<Self, TableRefV> {
            unreachable!()
        }
        fn query_step(self, _: QueryV) -> Stepped<Self, QueryV> {
            unreachable!()
        }
        fn expr_step(self, _: ExprV) -> Stepped<Self, ExprV> {
            unreachable!()
        }
        fn expr_kind_step(self, _: ExprKindV) -> Stepped<Self, ExprKindV> {
            unreachable!()
        }
        fn relation_column_step(self, _: RelationColumn) -> Stepped<Self, RelationColumn> {
            unreachable!()
        }
        fn cid_step(self, _: CId) -> Stepped<Self, CId> {
            unreachable!()
        }
        fn compute_step(self, _: ComputeV) -> Stepped<Self, ComputeV> {
            unreachable!()
        }
        fn fold_transform(&mut self, transform: Transform) -> Fallible<Transform> {
            fold_transform(self, transform)
        }
        fn fold_transforms(&mut self, transforms: Vec<Transform>) -> Fallible<Vec<Transform>> {
            fold_transforms(self, transforms)
        }
        fn fold_table(&mut self, table: TableDecl) -> Fallible<TableDecl> {
            fold_table(self, table)
        }
        fn fold_relation(&mut self, relation: Relation) -> Fallible<Relation> {
            fold_relation(self, relation)
        }
        fn fold_relation_kind(&mut self, rel_kind: RelationKind) -> Fallible<RelationKind> {
            fold_relation_kind(self, rel_kind)
        }
        fn fold_table_ref(&mut self, table_ref: TableRef) -> Fallible<TableRef> {
            fold_table_ref(self, table_ref)
        }
        fn fold_query(&mut self, query: Query) -> Fallible<Query> {
            fold_query(self, query)
        }
        fn fold_expr(&mut self, expr: Expr) -> Fallible<Expr> {
            fold_expr(self, expr)
        }
        fn fold_expr_kind(&mut self, kind: ExprKind) -> Fallible<ExprKind> {
            fold_expr_kind(self, kind)
        }
        fn fold_relation_column(&mut self, col: RelationColumn) -> Fallible<RelationColumn> {
            fold_relation_column(self, col)
        }
        fn fold_cid(&mut self, cid: CId) -> Fallible<CId> {
            Err(anyhow::Error::new(Marker(cid.0 as u32)))
        }
        fn fold_compute(&mut self, compute: Compute) -> Fallible<Compute> {
            fold_compute(self, compute)
        }
    }
    let err = Failing.fold_query(big_query()).unwrap_err();
    // The first column id of the query is the one of the first table
    // reference, and the error is the very value that the pass made.
    assert_eq!(err.downcast_ref::<Marker>().unwrap().0, 1);
    assert_eq!(err.chain().count(), 1);
}

#[test]
fn an_override_may_replace_a_node_without_looking_into_it() {
    let mut pass = Pass { drop_filters: true, fail_on: Some(5), ..Pass::default() };
    let given = vec![
        Transform::Select(cids(&[1])),
        Transform::Filter(binary(col(2), BinOp::Eq, lit(5))),
        Transform::Select(cids(&[3])),
    ];
    let out = pass.fold_transforms(given).unwrap();
    assert_eq!(
        out,
        vec![Transform::Select(cids(&[1])), Transform::Unique, Transform::Select(cids(&[3]))]
    );
    assert_eq!(pass.log, log(&["cid 1", "cid 3"]));
}
