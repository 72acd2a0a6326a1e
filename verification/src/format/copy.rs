//! Copies of expressions and operators that show the same as the originals.

use vstd::prelude::*;

use crate::plans::{
    Aggregate, AggregateFunction, AndExpr, BoundColumnRef, CastExpr, ColumnBinding, ComparisonExpr,
    ConstantExpr, DataType, DataValue, DummyTableScan, EvalScalar, Exchange, Filter, FunctionCall,
    Limit, LogicalGet, LogicalJoin, Metadata, OrExpr, PatternPlan, PhysicalHashJoin, PhysicalScan,
    RelOperator, Scalar, ScalarItem, Sort, SortItem, SubqueryExpr, UnionAll, same_opt_scalars,
    same_opt_sort_items, same_rel_operator, same_scalar, same_scalar_items, same_scalars,
};
use super::scalar::{
    item_scalars, lemma_scalars_text_len, scalar_list_text, scalar_text, scalars_text,
};
use super::label::rel_operator_text;
use super::lines::{
    and_chain, equalities, equality, equi_conditions_text, index_pairs, lemma_and_chain_step,
    lemma_index_order, op_lines, pair_order, rel_operator_valid, scalars_by_index,
};

verus! {

/// Two lists of scalar expressions that show the same, element by element.
pub open spec fn same_texts(a: Seq<Scalar>, b: Seq<Scalar>) -> bool {
    &&& a.len() == b.len()
    &&& forall|i: int| 0 <= i < a.len() ==> #[trigger] scalar_text(a[i]) == scalar_text(b[i])
}

/// Two lists of scalar items with the same indices whose scalars show the
/// same.
pub open spec fn same_items(a: Seq<ScalarItem>, b: Seq<ScalarItem>) -> bool {
    &&& a.len() == b.len()
    &&& forall|i: int|
        0 <= i < a.len() ==> #[trigger] a[i].index == b[i].index && scalar_text(a[i].scalar)
            == scalar_text(b[i].scalar)
}

proof fn lemma_same_texts(a: Seq<Scalar>, b: Seq<Scalar>)
    requires
        same_texts(a, b),
    ensures
        scalars_text(a) == scalars_text(b),
        scalar_list_text(a) == scalar_list_text(b),
{
    lemma_scalars_text_len(a);
    lemma_scalars_text_len(b);
    assert(scalars_text(a) =~= scalars_text(b));
}

proof fn lemma_same_items(a: Seq<ScalarItem>, b: Seq<ScalarItem>)
    requires
        same_items(a, b),
        a.len() <= usize::MAX,
    ensures
        scalar_list_text(item_scalars(a)) == scalar_list_text(item_scalars(b)),
        scalar_list_text(scalars_by_index(a)) == scalar_list_text(scalars_by_index(b)),
{
    assert(same_texts(item_scalars(a), item_scalars(b))) by {
        assert forall|i: int| 0 <= i < a.len() implies #[trigger] scalar_text(item_scalars(a)[i])
            == scalar_text(item_scalars(b)[i]) by {
            assert(a[i].index == b[i].index);
        }
    }
    lemma_same_texts(item_scalars(a), item_scalars(b));
    assert(index_pairs(a) =~= index_pairs(b));
    lemma_index_order(a);
    let order = index_pairs(a).sort_by(pair_order());
    assert(same_texts(scalars_by_index(a), scalars_by_index(b))) by {
        assert forall|i: int| 0 <= i < scalars_by_index(a).len() implies #[trigger] scalar_text(
            scalars_by_index(a)[i],
        ) == scalar_text(scalars_by_index(b)[i]) by {
            let k: int = order[i].1 as int;
            assert(order[i].1 < a.len());
            assert(a[k].index == b[k].index);
            assert(scalars_by_index(a)[i] == a[k].scalar);
            assert(scalars_by_index(b)[i] == b[k].scalar);
        }
    }
    lemma_same_texts(scalars_by_index(a), scalars_by_index(b));
}

fn copy_opt_string(s: &Option<String>) -> (r: Option<String>)
    ensures
        r == *s,
{
    match s {
        Some(t) => Some(t.clone()),
        None => None,
    }
}

fn copy_data_type(t: &DataType) -> (r: DataType)
    ensures
        r == *t,
{
    DataType { name: t.name.clone(), sql_name: t.sql_name.clone() }
}

fn copy_value(v: &DataValue) -> (r: DataValue)
    ensures
        r == *v,
{
    match v {
        DataValue::Null => DataValue::Null,
        DataValue::Boolean(b) => DataValue::Boolean(*b),
        DataValue::Int64(i) => DataValue::Int64(*i),
        DataValue::UInt64(u) => DataValue::UInt64(*u),
        DataValue::String(s) => DataValue::String(s.clone()),
    }
}

fn copy_column(c: &ColumnBinding) -> (r: ColumnBinding)
    ensures
        r == *c,
{
    ColumnBinding {
        database_name: copy_opt_string(&c.database_name),
        table_name: copy_opt_string(&c.table_name),
        column_name: c.column_name.clone(),
        index: c.index,
        data_type: Box::new(copy_data_type(&c.data_type)),
        visibility: c.visibility,
    }
}

/// A copy of a scalar expression that shows the same.
fn copy_scalar(s: &Scalar) -> (r: Scalar)
    ensures
        same_scalar(r, *s),
        scalar_text(r) == scalar_text(*s),
    decreases s,
{
    match s {
        Scalar::BoundColumnRef(c) => Scalar::BoundColumnRef(
            BoundColumnRef { column: copy_column(&c.column) },
        ),
        Scalar::ConstantExpr(c) => Scalar::ConstantExpr(
            ConstantExpr {
                value: copy_value(&c.value),
                data_type: Box::new(copy_data_type(&c.data_type)),
            },
        ),
        Scalar::AndExpr(a) => Scalar::AndExpr(
            AndExpr { left: Box::new(copy_scalar(&a.left)), right: Box::new(copy_scalar(&a.right)) },
        ),
        Scalar::OrExpr(o) => Scalar::OrExpr(
            OrExpr { left: Box::new(copy_scalar(&o.left)), right: Box::new(copy_scalar(&o.right)) },
        ),
        Scalar::ComparisonExpr(c) => Scalar::ComparisonExpr(
            ComparisonExpr {
                op: c.op,
                left: Box::new(copy_scalar(&c.left)),
                right: Box::new(copy_scalar(&c.right)),
            },
        ),
        Scalar::AggregateFunction(a) => {
            let args = copy_scalars(&a.args);
            Scalar::AggregateFunction(
                AggregateFunction {
                    display_name: a.display_name.clone(),
                    func_name: a.func_name.clone(),
                    distinct: a.distinct,
                    args,
                },
            )
        },
        Scalar::FunctionCall(f) => {
            let arguments = copy_scalars(&f.arguments);
            proof {
                lemma_same_texts(arguments@, f.arguments@);
            }
            Scalar::FunctionCall(FunctionCall { arguments, func_name: f.func_name.clone() })
        },
        Scalar::CastExpr(c) => Scalar::CastExpr(
            CastExpr {
                argument: Box::new(copy_scalar(&c.argument)),
                target_type: Box::new(copy_data_type(&c.target_type)),
            },
        ),
        Scalar::SubqueryExpr(q) => Scalar::SubqueryExpr(SubqueryExpr { output_column: q.output_column }),
    }
}

/// Copies a list of scalar expressions.
fn copy_scalars(v: &Vec<Scalar>) -> (r: Vec<Scalar>)
    ensures
        same_texts(r@, v@),
        same_scalars(r@, v@),
    decreases v,
{
    let mut r: Vec<Scalar> = Vec::new();
    let mut i: usize = 0;
    while i < v.len()
        invariant
            i <= v.len(),
            same_texts(r@, v@.take(i as int)),
            same_scalars(r@, v@.take(i as int)),
        decreases v.len() - i,
    {
        let ghost before = r@;
        r.push(copy_scalar(&v[i]));
        proof {
            let t = v@.take(i as int + 1);
            assert(t.subrange(0, t.len() - 1) =~= v@.take(i as int));
            assert(r@.subrange(0, r@.len() - 1) =~= before);
            assert(t[t.len() - 1] == v@[i as int]);
        }
        i = i + 1;
    }
    assert(v@.take(v.len() as int) =~= v@);
    r
}

/// Copies a list of scalar items.
fn copy_items(v: &Vec<ScalarItem>) -> (r: Vec<ScalarItem>)
    ensures
        same_items(r@, v@),
        same_scalar_items(r@, v@),
{
    let mut r: Vec<ScalarItem> = Vec::new();
    let mut i: usize = 0;
    while i < v.len()
        invariant
            i <= v.len(),
            same_items(r@, v@.take(i as int)),
            same_scalar_items(r@, v@.take(i as int)),
        decreases v.len() - i,
    {
        r.push(ScalarItem { scalar: copy_scalar(&v[i].scalar), index: v[i].index });
        i = i + 1;
    }
    assert(v@.take(v.len() as int) =~= v@);
    r
}

fn copy_sort_items(v: &Vec<SortItem>) -> (r: Vec<SortItem>)
    ensures
        r@ == v@,
{
    let mut r: Vec<SortItem> = Vec::new();
    let mut i: usize = 0;
    while i < v.len()
        invariant
            i <= v.len(),
            r@ == v@.take(i as int),
        decreases v.len() - i,
    {
        r.push(v[i]);
        i = i + 1;
        assert(r@ =~= v@.take(i as int));
    }
    assert(v@.take(v.len() as int) =~= v@);
    r
}

fn copy_opt_scalars(v: &Option<Vec<Scalar>>) -> (r: Option<Vec<Scalar>>)
    ensures
        r is Some <==> v is Some,
        r matches Some(rv) ==> v matches Some(vv) && same_texts(rv@, vv@),
        same_opt_scalars(r, *v),
{
    match v {
        Some(p) => Some(copy_scalars(p)),
        None => None,
    }
}

fn copy_opt_sort_items(v: &Option<Vec<SortItem>>) -> (r: Option<Vec<SortItem>>)
    ensures
        r is Some <==> v is Some,
        r matches Some(rv) ==> v matches Some(vv) && rv@ == vv@,
        same_opt_sort_items(r, *v),
{
    match v {
        Some(p) => Some(copy_sort_items(p)),
        None => None,
    }
}

proof fn lemma_same_equi_prefix(
    l1: Seq<Scalar>,
    r1: Seq<Scalar>,
    l2: Seq<Scalar>,
    r2: Seq<Scalar>,
    k: int,
)
    requires
        same_texts(l1, l2),
        same_texts(r1, r2),
        1 <= k <= equalities(l1, r1).len(),
    ensures
        scalar_text(and_chain(equalities(l1, r1).take(k))) == scalar_text(
            and_chain(equalities(l2, r2).take(k)),
        ),
    decreases k,
{
    assert(equalities(l2, r2).len() == equalities(l1, r1).len());
    lemma_and_chain_step(l1, r1, k - 1);
    lemma_and_chain_step(l2, r2, k - 1);
    assert(scalar_text(l1[k - 1]) == scalar_text(l2[k - 1]));
    assert(scalar_text(r1[k - 1]) == scalar_text(r2[k - 1]));
    let e1 = equality(l1[k - 1], r1[k - 1]);
    let e2 = equality(l2[k - 1], r2[k - 1]);
    assert(scalar_text(e1) == scalar_text(e2));
    if k > 1 {
        lemma_same_equi_prefix(l1, r1, l2, r2, k - 1);
    }
}

proof fn lemma_same_equi(l1: Seq<Scalar>, r1: Seq<Scalar>, l2: Seq<Scalar>, r2: Seq<Scalar>)
    requires
        same_texts(l1, l2),
        same_texts(r1, r2),
    ensures
        equi_conditions_text(l1, r1) == equi_conditions_text(l2, r2),
{
    let n: int = equalities(l1, r1).len() as int;
    if n > 0 {
        lemma_same_equi_prefix(l1, r1, l2, r2, n);
        assert(equalities(l1, r1).take(n) =~= equalities(l1, r1));
        assert(equalities(l2, r2).take(n) =~= equalities(l2, r2));
    }
}

/// A copy of an operator: it agrees with the operator in every field, and
/// so shows the same and reads the same tables and columns.
pub(crate) fn copy_rel_operator(op: &RelOperator) -> (r: RelOperator)
    ensures
        same_rel_operator(r, *op),
        rel_operator_text(r) == rel_operator_text(*op),
        forall|md: Metadata| #[trigger] op_lines(r, md) == op_lines(*op, md),
        forall|md: Metadata| #[trigger] rel_operator_valid(r, md) == rel_operator_valid(*op, md),
{
    match op {
        RelOperator::LogicalGet(g) => {
            let p = copy_opt_scalars(&g.push_down_predicates);
            proof {
                if p is Some {
                    lemma_same_texts(p.unwrap()@, g.push_down_predicates.unwrap()@);
                }
            }
            RelOperator::LogicalGet(
                LogicalGet {
                    table_index: g.table_index,
                    push_down_predicates: p,
                    limit: g.limit,
                    order_by: copy_opt_sort_items(&g.order_by),
                },
            )
        },
        RelOperator::PhysicalScan(g) => {
            let p = copy_opt_scalars(&g.push_down_predicates);
            proof {
                if p is Some {
                    lemma_same_texts(p.unwrap()@, g.push_down_predicates.unwrap()@);
                }
            }
            RelOperator::PhysicalScan(
                PhysicalScan {
                    table_index: g.table_index,
                    push_down_predicates: p,
                    limit: g.limit,
                    order_by: copy_opt_sort_items(&g.order_by),
                },
            )
        },
        RelOperator::LogicalJoin(j) => {
            let l = copy_scalars(&j.left_conditions);
            let r = copy_scalars(&j.right_conditions);
            let n = copy_scalars(&j.non_equi_conditions);
            proof {
                lemma_same_equi(l@, r@, j.left_conditions@, j.right_conditions@);
                lemma_same_texts(n@, j.non_equi_conditions@);
            }
            RelOperator::LogicalJoin(
                LogicalJoin {
                    left_conditions: l,
                    right_conditions: r,
                    non_equi_conditions: n,
                    join_type: j.join_type,
                },
            )
        },
        RelOperator::PhysicalHashJoin(h) => {
            let b = copy_scalars(&h.build_keys);
            let p = copy_scalars(&h.probe_keys);
            let n = copy_scalars(&h.non_equi_conditions);
            proof {
                lemma_same_texts(b@, h.build_keys@);
                lemma_same_texts(p@, h.probe_keys@);
                lemma_same_texts(n@, h.non_equi_conditions@);
            }
            RelOperator::PhysicalHashJoin(
                PhysicalHashJoin {
                    build_keys: b,
                    probe_keys: p,
                    non_equi_conditions: n,
                    join_type: h.join_type,
                },
            )
        },
        RelOperator::EvalScalar(e) => {
            let items = copy_items(&e.items);
            proof {
                assert(items.len() <= usize::MAX);
                lemma_same_items(items@, e.items@);
            }
            RelOperator::EvalScalar(EvalScalar { items })
        },
        RelOperator::Filter(f) => {
            let predicates = copy_scalars(&f.predicates);
            proof {
                lemma_same_texts(predicates@, f.predicates@);
            }
            RelOperator::Filter(Filter { predicates, is_having: f.is_having })
        },
        RelOperator::Aggregate(a) => {
            let group_items = copy_items(&a.group_items);
            let aggregate_functions = copy_items(&a.aggregate_functions);
            proof {
                assert(group_items.len() <= usize::MAX);
                assert(aggregate_functions.len() <= usize::MAX);
                lemma_same_items(group_items@, a.group_items@);
                lemma_same_items(aggregate_functions@, a.aggregate_functions@);
            }
            RelOperator::Aggregate(Aggregate { mode: a.mode, group_items, aggregate_functions })
        },
        RelOperator::Sort(s) => RelOperator::Sort(
            Sort { items: copy_sort_items(&s.items), limit: s.limit },
        ),
        RelOperator::Limit(l) => RelOperator::Limit(Limit { limit: l.limit, offset: l.offset }),
        RelOperator::Exchange(x) => {
            match x {
                Exchange::Hash(keys) => {
                    let k = copy_scalars(keys);
                    proof {
                        lemma_same_texts(k@, keys@);
                    }
                    RelOperator::Exchange(Exchange::Hash(k))
                },
                Exchange::Broadcast => RelOperator::Exchange(Exchange::Broadcast),
                Exchange::Merge => RelOperator::Exchange(Exchange::Merge),
            }
        },
        RelOperator::UnionAll(_) => RelOperator::UnionAll(UnionAll {}),
        RelOperator::Pattern(_) => RelOperator::Pattern(PatternPlan {}),
        RelOperator::DummyTableScan(_) => RelOperator::DummyTableScan(DummyTableScan {}),
    }
}

} // verus!
