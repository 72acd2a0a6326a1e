use std::sync::Arc;

use query_format::format::{
    format_aggregate, format_exchange, format_hash_join, format_logical_join, format_scalar,
    logical_join_to_format_tree, FormatContext, FormatTreeNode,
};
use query_format::plans::{
    Aggregate, AggregateFunction, AggregateMode, AndExpr, BoundColumnRef, CastExpr, ColumnBinding,
    ColumnEntry, ComparisonExpr, ComparisonOp, ConstantExpr, DataType, DataValue, DummyTableScan,
    EvalScalar, Exchange, Filter, FunctionCall, JoinType, Limit, LogicalGet, LogicalJoin,
    Metadata, MetadataRef, OrExpr, PhysicalHashJoin, PhysicalScan, RelOperator, SExpr, Scalar,
    ScalarItem, Sort, SortItem, SubqueryExpr, TableEntry, Visibility,
};

fn int_type() -> DataType {
    DataType { name: "Int64".to_string(), sql_name: "BIGINT".to_string() }
}

fn column(table: Option<&str>, name: &str, index: usize) -> Scalar {
    Scalar::BoundColumnRef(BoundColumnRef {
        column: ColumnBinding {
            database_name: None,
            table_name: table.map(|t| t.to_string()),
            column_name: name.to_string(),
            index,
            data_type: Box::new(int_type()),
            visibility: Visibility::Visible,
        },
    })
}

fn constant(value: DataValue) -> Scalar {
    Scalar::ConstantExpr(ConstantExpr { value, data_type: Box::new(int_type()) })
}

fn metadata() -> MetadataRef {
    Arc::new(Metadata {
        tables: vec![TableEntry {
            catalog: "default".to_string(),
            database: "db".to_string(),
            name: "t".to_string(),
            index: 0,
        }],
        columns: vec![
            ColumnEntry::BaseTableColumn {
                table_index: 0,
                column_index: 0,
                column_name: "a".to_string(),
                data_type: int_type(),
            },
            ColumnEntry::DerivedColumn { column_index: 1, alias: "b".to_string(), data_type: int_type() },
        ],
    })
}

fn texts(node: &FormatTreeNode<FormatContext>) -> Vec<String> {
    node.children.iter().map(|c| c.payload.fmt()).collect()
}

#[test]
fn column_refs_show_name_and_index() {
    let md = metadata();
    assert_eq!(format_scalar(&md, &column(Some("t"), "a", 3)), "t.a (#3)");
    assert_eq!(format_scalar(&md, &column(None, "a", 12)), "a (#12)");
}

#[test]
fn constants_show_their_value() {
    let md = metadata();
    assert_eq!(format_scalar(&md, &constant(DataValue::Int64(-42))), "-42");
    assert_eq!(format_scalar(&md, &constant(DataValue::Int64(i64::MIN))), "-9223372036854775808");
    assert_eq!(format_scalar(&md, &constant(DataValue::UInt64(u64::MAX))), "18446744073709551615");
    assert_eq!(format_scalar(&md, &constant(DataValue::UInt64(0))), "0");
    assert_eq!(format_scalar(&md, &constant(DataValue::UInt64(7))), "7");
    assert_eq!(format_scalar(&md, &constant(DataValue::UInt64(10))), "10");
    assert_eq!(format_scalar(&md, &constant(DataValue::Int64(90210))), "90210");
    assert_eq!(format_scalar(&md, &constant(DataValue::Null)), "NULL");
    assert_eq!(format_scalar(&md, &constant(DataValue::Boolean(true))), "true");
    assert_eq!(format_scalar(&md, &constant(DataValue::Boolean(false))), "false");
    assert_eq!(format_scalar(&md, &constant(DataValue::String("x y".to_string()))), "x y");
}

#[test]
fn compound_scalars() {
    let md = metadata();
    let cmp = Scalar::ComparisonExpr(ComparisonExpr {
        op: ComparisonOp::GTE,
        left: Box::new(column(None, "a", 0)),
        right: Box::new(constant(DataValue::Int64(1))),
    });
    assert_eq!(format_scalar(&md, &cmp), "a (#0) >= 1");
    let and = Scalar::AndExpr(AndExpr {
        left: Box::new(cmp),
        right: Box::new(constant(DataValue::Boolean(true))),
    });
    assert_eq!(format_scalar(&md, &and), "(a (#0) >= 1) AND (true)");
    let or = Scalar::OrExpr(OrExpr { left: Box::new(and), right: Box::new(constant(DataValue::Null)) });
    assert_eq!(format_scalar(&md, &or), "((a (#0) >= 1) AND (true)) OR (NULL)");
    let call = Scalar::FunctionCall(FunctionCall {
        arguments: vec![column(None, "a", 0), constant(DataValue::Int64(2))],
        func_name: "plus".to_string(),
    });
    assert_eq!(format_scalar(&md, &call), "plus(a (#0), 2)");
    let empty_call = Scalar::FunctionCall(FunctionCall { arguments: vec![], func_name: "now".to_string() });
    assert_eq!(format_scalar(&md, &empty_call), "now()");
    let cast = Scalar::CastExpr(CastExpr {
        argument: Box::new(column(None, "a", 0)),
        target_type: Box::new(DataType { name: "String".to_string(), sql_name: "VARCHAR".to_string() }),
    });
    assert_eq!(format_scalar(&md, &cast), "CAST(a (#0) AS VARCHAR)");
    let agg = Scalar::AggregateFunction(AggregateFunction {
        display_name: "count(*)".to_string(),
        func_name: "count".to_string(),
        distinct: false,
        args: vec![],
    });
    assert_eq!(format_scalar(&md, &agg), "count(*)");
    assert_eq!(format_scalar(&md, &Scalar::SubqueryExpr(SubqueryExpr { output_column: 7 })), "SUBQUERY");
}

#[test]
fn comparison_function_names() {
    assert_eq!(ComparisonOp::Equal.to_func_name(), "=");
    assert_eq!(ComparisonOp::NotEqual.to_func_name(), "<>");
    assert_eq!(ComparisonOp::GT.to_func_name(), ">");
    assert_eq!(ComparisonOp::LT.to_func_name(), "<");
    assert_eq!(ComparisonOp::GTE.to_func_name(), ">=");
    assert_eq!(ComparisonOp::LTE.to_func_name(), "<=");
}

#[test]
fn operator_labels() {
    let md = metadata();
    let join = LogicalJoin {
        left_conditions: vec![],
        right_conditions: vec![],
        non_equi_conditions: vec![],
        join_type: JoinType::Left,
    };
    assert_eq!(format_logical_join(&md, &join), "LogicalJoin: LEFT OUTER");
    let hash = PhysicalHashJoin {
        build_keys: vec![],
        probe_keys: vec![],
        non_equi_conditions: vec![],
        join_type: JoinType::Inner,
    };
    assert_eq!(format_hash_join(&md, &hash), "HashJoin: INNER");
    let cross = PhysicalHashJoin {
        build_keys: vec![],
        probe_keys: vec![],
        non_equi_conditions: vec![],
        join_type: JoinType::Cross,
    };
    assert_eq!(format_hash_join(&md, &cross), "CrossJoin");
    let agg = Aggregate { mode: AggregateMode::Final, group_items: vec![], aggregate_functions: vec![] };
    assert_eq!(format_aggregate(&md, &agg), "Aggregate(Final)");
    assert_eq!(format_exchange(&md, &Exchange::Merge), "Exchange(Merge)");
    assert_eq!(format_exchange(&md, &Exchange::Broadcast), "Exchange(Broadcast)");
    assert_eq!(format_exchange(&md, &Exchange::Hash(vec![])), "Exchange(Hash)");
}

#[test]
fn text_context_shows_its_text() {
    assert_eq!(FormatContext::Text("limit: 3".to_string()).fmt(), "limit: 3");
}

#[test]
fn logical_join_tree_shows_equi_conditions_as_one_conjunction() {
    let md = metadata();
    let join = LogicalJoin {
        left_conditions: vec![column(None, "a", 0), column(None, "b", 1), column(None, "c", 2)],
        right_conditions: vec![column(None, "x", 5), column(None, "y", 6)],
        non_equi_conditions: vec![constant(DataValue::Boolean(true)), column(None, "z", 9)],
        join_type: JoinType::Inner,
    };
    let child = FormatTreeNode::new(FormatContext::Text("child".to_string()));
    let node = logical_join_to_format_tree(join, md, vec![child]);
    assert_eq!(node.payload.fmt(), "LogicalJoin: INNER");
    assert_eq!(
        texts(&node),
        vec![
            "equi conditions: [(a (#0) = x (#5)) AND (b (#1) = y (#6))]",
            "non-equi conditions: [true, z (#9)]",
            "child",
        ]
    );
    assert!(node.children.iter().all(|c| matches!(c.payload, FormatContext::Text(_)) && c.children.is_empty()));
}

#[test]
fn children_follow_the_lines_unchanged() {
    let md = metadata();
    let grandchild = FormatTreeNode::new(FormatContext::Text("deep".to_string()));
    let child = FormatTreeNode::with_children(
        FormatContext::RelOp {
            metadata: md.clone(),
            rel_operator: Box::new(RelOperator::DummyTableScan(DummyTableScan {})),
        },
        vec![grandchild],
    );
    let join = LogicalJoin {
        left_conditions: vec![],
        right_conditions: vec![],
        non_equi_conditions: vec![],
        join_type: JoinType::Left,
    };
    let node = logical_join_to_format_tree(join, md.clone(), vec![child]);
    assert!(matches!(
        &node.payload,
        FormatContext::RelOp { rel_operator, .. } if matches!(**rel_operator, RelOperator::LogicalJoin(_))
    ));
    assert_eq!(node.children.len(), 3);
    let kept = &node.children[2];
    assert!(matches!(
        &kept.payload,
        FormatContext::RelOp { rel_operator, .. } if matches!(**rel_operator, RelOperator::DummyTableScan(_))
    ));
    assert_eq!(kept.children.len(), 1);
    assert_eq!(kept.children[0].payload.fmt(), "deep");
}

#[test]
fn logical_join_without_keys() {
    let md = metadata();
    let join = LogicalJoin {
        left_conditions: vec![],
        right_conditions: vec![],
        non_equi_conditions: vec![],
        join_type: JoinType::Cross,
    };
    let node = logical_join_to_format_tree(join, md, vec![]);
    assert_eq!(node.payload.fmt(), "LogicalJoin: CROSS");
    assert_eq!(texts(&node), vec!["equi conditions: []", "non-equi conditions: []"]);
}

fn leaf(plan: RelOperator) -> SExpr {
    SExpr::create_leaf(plan)
}

#[test]
fn explained_plan_tree() {
    let md = metadata();
    let scan = leaf(RelOperator::PhysicalScan(PhysicalScan {
        table_index: 0,
        push_down_predicates: Some(vec![column(Some("t"), "a", 0)]),
        limit: Some(10),
        order_by: Some(vec![SortItem { index: 0, asc: true }, SortItem { index: 1, asc: false }]),
    }));
    let filter = SExpr::create_unary(
        RelOperator::Filter(Filter { predicates: vec![constant(DataValue::Boolean(true))], is_having: false }),
        scan,
    );
    let eval = SExpr::create_unary(
        RelOperator::EvalScalar(EvalScalar {
            items: vec![
                ScalarItem { scalar: constant(DataValue::Int64(3)), index: 9 },
                ScalarItem { scalar: constant(DataValue::Int64(1)), index: 2 },
                ScalarItem { scalar: constant(DataValue::Int64(2)), index: 2 },
            ],
        }),
        filter,
    );
    let tree = eval.to_format_tree(&md);
    assert_eq!(tree.payload.fmt(), "EvalScalar");
    match &tree.payload {
        FormatContext::RelOp { metadata, rel_operator } => {
            assert!(Arc::ptr_eq(metadata, &md));
            match &**rel_operator {
                RelOperator::EvalScalar(e) => {
                    let indices: Vec<usize> = e.items.iter().map(|it| it.index).collect();
                    assert_eq!(indices, vec![9, 2, 2]);
                }
                other => panic!("{:?}", other),
            }
        }
        other => panic!("{:?}", other),
    }
    assert!(matches!(&tree.children[1].payload, FormatContext::RelOp { .. }));
    assert_eq!(texts(&tree), vec!["scalars: [1, 2, 3]", "Filter"]);
    let f = &tree.children[1];
    assert_eq!(texts(f), vec!["filters: [true]", "PhysicalScan"]);
    let s = &f.children[1];
    assert_eq!(
        texts(s),
        vec![
            "table: default.db.t",
            "filters: [t.a (#0)]",
            "order by: [a (#0) ASC, b (#1) DESC]",
            "limit: 10",
        ]
    );
    assert!(s.children.iter().all(|c| c.children.is_empty()));
}

#[test]
fn explained_get_sort_limit_exchange() {
    let md = metadata();
    let get = leaf(RelOperator::LogicalGet(LogicalGet {
        table_index: 0,
        push_down_predicates: None,
        limit: None,
        order_by: None,
    }));
    let sort = SExpr::create_unary(
        RelOperator::Sort(Sort { items: vec![SortItem { index: 1, asc: true }], limit: None }),
        get,
    );
    let limit = SExpr::create_unary(RelOperator::Limit(Limit { limit: None, offset: 5 }), sort);
    let exchange = SExpr::create_unary(RelOperator::Exchange(Exchange::Hash(vec![column(None, "a", 0)])), limit);
    let merge = SExpr::create_unary(RelOperator::Exchange(Exchange::Merge), exchange);
    let tree = merge.to_format_tree(&md);
    assert_eq!(tree.payload.fmt(), "Exchange(Merge)");
    assert_eq!(texts(&tree), vec!["Exchange(Hash)"]);
    let x = &tree.children[0];
    assert_eq!(texts(x), vec!["Exchange(Hash): keys: [a (#0)]", "Limit"]);
    let l = &x.children[1];
    assert_eq!(texts(l), vec!["limit: [0]", "offset: [5]", "Sort"]);
    let s = &l.children[2];
    assert_eq!(texts(s), vec!["sort keys: [b (#1) ASC]", "limit: [NONE]", "LogicalGet"]);
    let g = &s.children[2];
    assert_eq!(texts(g), vec!["table: default.db.t", "filters: []", "order by: []", "limit: NONE"]);
}

#[test]
fn explained_hash_join_and_aggregate() {
    let md = metadata();
    let join = SExpr {
        plan: RelOperator::PhysicalHashJoin(PhysicalHashJoin {
            build_keys: vec![column(None, "a", 0)],
            probe_keys: vec![column(None, "b", 1), column(None, "c", 2)],
            non_equi_conditions: vec![],
            join_type: JoinType::Semi,
        }),
        children: vec![leaf(RelOperator::DummyTableScan(DummyTableScan {})), leaf(RelOperator::DummyTableScan(DummyTableScan {}))],
    };
    let agg = SExpr::create_unary(
        RelOperator::Aggregate(Aggregate {
            mode: AggregateMode::Partial,
            group_items: vec![ScalarItem { scalar: column(None, "a", 0), index: 0 }],
            aggregate_functions: vec![],
        }),
        join,
    );
    let tree = agg.to_format_tree(&md);
    assert_eq!(tree.payload.fmt(), "Aggregate(Partial)");
    assert_eq!(texts(&tree), vec!["group items: [a (#0)]", "aggregate functions: []", "HashJoin: SEMI"]);
    let j = &tree.children[2];
    assert_eq!(
        texts(j),
        vec![
            "build keys: [a (#0)]",
            "probe keys: [b (#1), c (#2)]",
            "other filters: []",
            "DummyTableScan",
            "DummyTableScan",
        ]
    );
}
