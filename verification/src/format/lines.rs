//! The lines of text that describe an operator below its label.

use vstd::prelude::*;
use vstd::relations::{sorted_by, total_ordering};

use itertools::Itertools;

use crate::plans::{
    Aggregate, AndExpr, ComparisonExpr, ComparisonOp, EvalScalar, Exchange, Filter, Limit,
    LogicalGet, LogicalJoin, Metadata, PhysicalHashJoin, PhysicalScan, RelOperator, Scalar,
    ScalarItem, Sort, SortItem, column_entry_name,
};
use crate::text::{
    decimal, lemma_decimal_round_trip, lemma_join_push, parse_decimal, push_decimal, push_str,
    seq_join,
};
use super::scalar::{
    comparison_text, item_scalars, lemma_comparison_names, push_comparison_op, push_scalar,
    scalar_list_text, scalar_text,
};
use super::tree::{TextTree, leaf};

verus! {

/// How a sort key is shown: its column's name, its index and its
/// direction.
pub open spec fn sort_item_text(md: Metadata, item: SortItem) -> Seq<char> {
    column_entry_name(md.columns@[item.index as int]) + " (#"@ + decimal(item.index as nat) + ") "@
        + if item.asc {
        "ASC"@
    } else {
        "DESC"@
    }
}

/// Sort keys shown with `", "` between neighbours.
pub open spec fn sort_items_text(md: Metadata, items: Seq<SortItem>) -> Seq<char> {
    seq_join(items.map_values(|it: SortItem| sort_item_text(md, it)), ", "@)
}

/// Every sort key names a column of the metadata.
pub open spec fn sort_items_valid(md: Metadata, items: Seq<SortItem>) -> bool {
    forall|i: int| 0 <= i < items.len() ==> #[trigger] items[i].index < md.columns@.len()
}

/// A limit, or `NONE` without one.
pub open spec fn limit_text(l: Option<usize>) -> Seq<char> {
    match l {
        Some(n) => decimal(n as nat),
        None => "NONE"@,
    }
}

/// The lines shown below a table scan: the table, the pushed-down filters,
/// the ordering and the limit.
pub open spec fn scan_lines(
    md: Metadata,
    table_index: usize,
    predicates: Option<Vec<Scalar>>,
    order_by: Option<Vec<SortItem>>,
    limit: Option<usize>,
) -> Seq<TextTree> {
    let t = md.tables@[table_index as int];
    seq![
        leaf("table: "@ + t.catalog@ + "."@ + t.database@ + "."@ + t.name@),
        leaf(
            "filters: ["@ + match predicates {
                Some(v) => scalar_list_text(v@),
                None => Seq::empty(),
            } + "]"@,
        ),
        leaf(
            "order by: ["@ + match order_by {
                Some(v) => sort_items_text(md, v@),
                None => Seq::empty(),
            } + "]"@,
        ),
        leaf("limit: "@ + limit_text(limit)),
    ]
}

/// A table scan reads an existing table and orders by existing columns.
pub open spec fn scan_valid(md: Metadata, table_index: usize, order_by: Option<Vec<SortItem>>) -> bool {
    &&& table_index < md.tables@.len()
    &&& order_by matches Some(v) ==> sort_items_valid(md, v@)
}

/// The equality of a pair of join keys.
pub open spec fn equality(left: Scalar, right: Scalar) -> Scalar {
    Scalar::ComparisonExpr(
        ComparisonExpr {
            op: ComparisonOp::Equal,
            left: Box::new(left),
            right: Box::new(right),
        },
    )
}

/// The equalities of paired join keys, as far as both lists reach.
pub open spec fn equalities(left: Seq<Scalar>, right: Seq<Scalar>) -> Seq<Scalar> {
    Seq::new(
        if left.len() <= right.len() {
            left.len()
        } else {
            right.len()
        },
        |i: int| equality(left[i], right[i]),
    )
}

/// The conjunction of a non-empty list of predicates, grouped from the left.
pub open spec fn and_chain(preds: Seq<Scalar>) -> Scalar
    decreases preds.len(),
{
    if preds.len() <= 1 {
        preds[0]
    } else {
        Scalar::AndExpr(
            AndExpr {
                left: Box::new(and_chain(preds.drop_last())),
                right: Box::new(preds.last()),
            },
        )
    }
}

/// The equi-conditions of a join, shown as one conjunction of equalities.
pub open spec fn equi_conditions_text(left: Seq<Scalar>, right: Seq<Scalar>) -> Seq<char> {
    let preds = equalities(left, right);
    if preds.len() == 0 {
        Seq::empty()
    } else {
        scalar_text(and_chain(preds))
    }
}

/// How many key pairs a join has: as many as both lists of keys reach.
pub open spec fn pair_count(left: Seq<Scalar>, right: Seq<Scalar>) -> int {
    if left.len() <= right.len() {
        left.len() as int
    } else {
        right.len() as int
    }
}

/// The equi-conditions of a join show nothing exactly when it has no key
/// pair; with one pair they show `l = r`, the two keys around `=`; with
/// more, the conditions of all pairs but the last in brackets, then
/// `AND`, then the last pair's equality in brackets.
pub proof fn lemma_equi_conditions(left: Seq<Scalar>, right: Seq<Scalar>)
    ensures
        equi_conditions_text(left, right).len() == 0 <==> pair_count(left, right) == 0,
        pair_count(left, right) == 1 ==> equi_conditions_text(left, right) == scalar_text(left[0])
            + " = "@ + scalar_text(right[0]),
        pair_count(left, right) >= 2 ==> {
            let k = pair_count(left, right);
            equi_conditions_text(left, right) == "("@ + equi_conditions_text(
                left.take(k - 1),
                right.take(k - 1),
            ) + ") AND ("@ + scalar_text(left[k - 1]) + " = "@ + scalar_text(right[k - 1])
                + ")"@
        },
{
    let k = pair_count(left, right);
    let preds = equalities(left, right);
    reveal_strlit(" ");
    reveal_strlit("=");
    reveal_strlit(" = ");
    reveal_strlit("(");
    reveal_strlit(") AND (");
    reveal_strlit(")");
    lemma_comparison_names(ComparisonOp::Equal, ComparisonOp::Equal);
    if k >= 1 {
        let e = equality(left[k - 1], right[k - 1]);
        assert(scalar_text(e) =~= scalar_text(left[k - 1]) + " = "@ + scalar_text(right[k - 1]));
        if k == 1 {
            assert(and_chain(preds) == preds[0]);
            assert(equi_conditions_text(left, right) =~= scalar_text(left[0]) + " = "@ + scalar_text(
                right[0],
            ));
        } else {
            let lt = left.take(k - 1);
            let rt = right.take(k - 1);
            assert(equalities(lt, rt) =~= preds.drop_last());
            assert(preds.last() == e);
            assert(equi_conditions_text(left, right) =~= "("@ + equi_conditions_text(lt, rt)
                + ") AND ("@ + scalar_text(left[k - 1]) + " = "@ + scalar_text(right[k - 1])
                + ")"@);
        }
        assert(equi_conditions_text(left, right).len() > 0);
    }
}

/// Below a limit come the line of its limit, `0` when it has none, and
/// the line of its offset; limits of the same offset with different
/// limits show different first lines.
pub proof fn lemma_limit_lines(l: Limit, m: Limit, md: Metadata)
    ensures
        op_lines(RelOperator::Limit(l), md).len() == 2,
        l.limit matches Some(n) ==> op_lines(RelOperator::Limit(l), md)[0] == leaf(
            "limit: ["@ + decimal(n as nat) + "]"@,
        ),
        l.limit is None ==> op_lines(RelOperator::Limit(l), md)[0] == leaf(
            "limit: ["@ + decimal(0) + "]"@,
        ),
        op_lines(RelOperator::Limit(l), md)[1] == leaf("offset: ["@ + decimal(l.offset as nat) + "]"@),
        l.limit is Some && m.limit is Some && l.limit != m.limit ==> op_lines(
            RelOperator::Limit(l),
            md,
        )[0] != op_lines(RelOperator::Limit(m), md)[0],
{
    if l.limit is Some && m.limit is Some && l.limit != m.limit {
        let a = l.limit.unwrap() as nat;
        let b = m.limit.unwrap() as nat;
        reveal_strlit("limit: [");
        reveal_strlit("]");
        let pre = "limit: ["@;
        let ta = op_lines(RelOperator::Limit(l), md)[0].text;
        let tb = op_lines(RelOperator::Limit(m), md)[0].text;
        if ta == tb {
            lemma_decimal_round_trip(a);
            lemma_decimal_round_trip(b);
            assert(ta.subrange(pre.len() as int, ta.len() - 1) =~= decimal(a));
            assert(tb.subrange(pre.len() as int, tb.len() - 1) =~= decimal(b));
            assert(parse_decimal(decimal(a)) == parse_decimal(decimal(b)));
        }
    }
}

/// A sort key is shown as its column's name, `(#index)` and `ASC` or
/// `DESC`; a limit as its digits, or `NONE` without one.
pub proof fn lemma_sort_key_and_limit_texts(md: Metadata, item: SortItem, limit: Option<usize>)
    ensures
        sort_item_text(md, item) == column_entry_name(md.columns@[item.index as int]) + " (#"@
            + decimal(item.index as nat) + ") "@ + if item.asc {
            "ASC"@
        } else {
            "DESC"@
        },
        limit_text(limit) == match limit {
            Some(n) => decimal(n as nat),
            None => "NONE"@,
        },
{
}

/// The lines below each operator: a table scan shows its table, filters,
/// ordering and limit; a logical join its equi-conditions and other
/// conditions; a hash join its build keys, probe keys and other filters;
/// an evaluation its scalars by ascending index; a filter its
/// predicates; an aggregation its group items and aggregate functions; a
/// sort its keys and limit; a hash exchange its keys; other operators
/// show no lines.
pub proof fn lemma_operator_lines(op: RelOperator, md: Metadata)
    ensures
        op matches RelOperator::PhysicalScan(p) ==> op_lines(op, md) == seq![
            leaf(
                "table: "@ + md.tables@[p.table_index as int].catalog@ + "."@
                    + md.tables@[p.table_index as int].database@ + "."@
                    + md.tables@[p.table_index as int].name@,
            ),
            leaf(
                "filters: ["@ + match p.push_down_predicates {
                    Some(v) => scalar_list_text(v@),
                    None => Seq::empty(),
                } + "]"@,
            ),
            leaf(
                "order by: ["@ + match p.order_by {
                    Some(v) => sort_items_text(md, v@),
                    None => Seq::empty(),
                } + "]"@,
            ),
            leaf("limit: "@ + limit_text(p.limit)),
        ],
        op matches RelOperator::LogicalGet(g) ==> op_lines(op, md) == scan_lines(
            md,
            g.table_index,
            g.push_down_predicates,
            g.order_by,
            g.limit,
        ) && scan_lines(md, g.table_index, g.push_down_predicates, g.order_by, g.limit)
            == op_lines(
            RelOperator::PhysicalScan(
                PhysicalScan {
                    table_index: g.table_index,
                    push_down_predicates: g.push_down_predicates,
                    limit: g.limit,
                    order_by: g.order_by,
                },
            ),
            md,
        ),
        op matches RelOperator::LogicalJoin(j) ==> op_lines(op, md) == seq![
            leaf(
                "equi conditions: ["@ + equi_conditions_text(j.left_conditions@, j.right_conditions@)
                    + "]"@,
            ),
            leaf("non-equi conditions: ["@ + scalar_list_text(j.non_equi_conditions@) + "]"@),
        ],
        op matches RelOperator::PhysicalHashJoin(h) ==> op_lines(op, md) == seq![
            leaf("build keys: ["@ + scalar_list_text(h.build_keys@) + "]"@),
            leaf("probe keys: ["@ + scalar_list_text(h.probe_keys@) + "]"@),
            leaf("other filters: ["@ + scalar_list_text(h.non_equi_conditions@) + "]"@),
        ],
        op matches RelOperator::EvalScalar(e) ==> op_lines(op, md) == seq![
            leaf("scalars: ["@ + scalar_list_text(scalars_by_index(e.items@)) + "]"@),
        ],
        op matches RelOperator::Filter(f) ==> op_lines(op, md) == seq![
            leaf("filters: ["@ + scalar_list_text(f.predicates@) + "]"@),
        ],
        op matches RelOperator::Aggregate(a) ==> op_lines(op, md) == seq![
            leaf("group items: ["@ + scalar_list_text(item_scalars(a.group_items@)) + "]"@),
            leaf(
                "aggregate functions: ["@ + scalar_list_text(item_scalars(a.aggregate_functions@))
                    + "]"@,
            ),
        ],
        op matches RelOperator::Sort(t) ==> op_lines(op, md) == seq![
            leaf("sort keys: ["@ + sort_items_text(md, t.items@) + "]"@),
            leaf("limit: ["@ + limit_text(t.limit) + "]"@),
        ],
        op matches RelOperator::Exchange(Exchange::Hash(keys)) ==> op_lines(op, md) == seq![
            leaf("Exchange(Hash): keys: ["@ + scalar_list_text(keys@) + "]"@),
        ],
        op matches RelOperator::Exchange(Exchange::Broadcast) ==> op_lines(op, md).len() == 0,
        op matches RelOperator::Exchange(Exchange::Merge) ==> op_lines(op, md).len() == 0,
        op is UnionAll || op is Pattern || op is DummyTableScan ==> op_lines(op, md).len() == 0,
{
}

/// The (index, position) pairs of a list of scalar items.
pub open spec fn index_pairs(items: Seq<ScalarItem>) -> Seq<(usize, usize)> {
    Seq::new(items.len(), |i: int| (items[i].index, i as usize))
}

/// Lexicographic order on pairs.
pub open spec fn pair_leq(a: (usize, usize), b: (usize, usize)) -> bool {
    a.0 < b.0 || (a.0 == b.0 && a.1 <= b.1)
}

/// Lexicographic order on pairs, as a relation.
pub open spec fn pair_order() -> spec_fn((usize, usize), (usize, usize)) -> bool {
    |a: (usize, usize), b: (usize, usize)| pair_leq(a, b)
}

/// The scalars of a list of items by ascending index, items of equal
/// index in their original order.
pub open spec fn scalars_by_index(items: Seq<ScalarItem>) -> Seq<Scalar> {
    let order = index_pairs(items).sort_by(pair_order());
    Seq::new(order.len(), |i: int| items[order[i].1 as int].scalar)
}

/// The lines shown below an operator, before its children.
pub open spec fn op_lines(op: RelOperator, md: Metadata) -> Seq<TextTree> {
    match op {
        RelOperator::PhysicalScan(s) => scan_lines(
            md,
            s.table_index,
            s.push_down_predicates,
            s.order_by,
            s.limit,
        ),
        RelOperator::LogicalGet(s) => scan_lines(
            md,
            s.table_index,
            s.push_down_predicates,
            s.order_by,
            s.limit,
        ),
        RelOperator::LogicalJoin(j) => seq![
            leaf(
                "equi conditions: ["@ + equi_conditions_text(
                    j.left_conditions@,
                    j.right_conditions@,
                ) + "]"@,
            ),
            leaf("non-equi conditions: ["@ + scalar_list_text(j.non_equi_conditions@) + "]"@),
        ],
        RelOperator::PhysicalHashJoin(h) => seq![
            leaf("build keys: ["@ + scalar_list_text(h.build_keys@) + "]"@),
            leaf("probe keys: ["@ + scalar_list_text(h.probe_keys@) + "]"@),
            leaf("other filters: ["@ + scalar_list_text(h.non_equi_conditions@) + "]"@),
        ],
        RelOperator::EvalScalar(e) => seq![
            leaf("scalars: ["@ + scalar_list_text(scalars_by_index(e.items@)) + "]"@),
        ],
        RelOperator::Filter(f) => seq![
            leaf("filters: ["@ + scalar_list_text(f.predicates@) + "]"@),
        ],
        RelOperator::Aggregate(a) => seq![
            leaf("group items: ["@ + scalar_list_text(item_scalars(a.group_items@)) + "]"@),
            leaf(
                "aggregate functions: ["@ + scalar_list_text(item_scalars(a.aggregate_functions@))
                    + "]"@,
            ),
        ],
        RelOperator::Sort(s) => seq![
            leaf("sort keys: ["@ + sort_items_text(md, s.items@) + "]"@),
            leaf("limit: ["@ + limit_text(s.limit) + "]"@),
        ],
        RelOperator::Limit(l) => seq![
            leaf(
                "limit: ["@ + decimal(
                    match l.limit {
                        Some(v) => v as nat,
                        None => 0,
                    },
                ) + "]"@,
            ),
            leaf("offset: ["@ + decimal(l.offset as nat) + "]"@),
        ],
        RelOperator::Exchange(Exchange::Hash(keys)) => seq![
            leaf("Exchange(Hash): keys: ["@ + scalar_list_text(keys@) + "]"@),
        ],
        _ => Seq::empty(),
    }
}

/// An operator reads only tables and columns that the metadata holds.
pub open spec fn rel_operator_valid(op: RelOperator, md: Metadata) -> bool {
    match op {
        RelOperator::PhysicalScan(s) => scan_valid(md, s.table_index, s.order_by),
        RelOperator::LogicalGet(s) => scan_valid(md, s.table_index, s.order_by),
        RelOperator::Sort(s) => sort_items_valid(md, s.items@),
        _ => true,
    }
}

fn push_sort_item(out: &mut String, md: &Metadata, item: SortItem)
    requires
        item.index < md.columns@.len(),
    ensures
        final(out)@ == old(out)@ + sort_item_text(*md, item),
{
    push_str(out, md.column_name(item.index));
    push_str(out, " (#");
    push_decimal(out, item.index as u64);
    push_str(out, ") ");
    if item.asc {
        push_str(out, "ASC");
    } else {
        push_str(out, "DESC");
    }
    assert(out@ =~= old(out)@ + sort_item_text(*md, item));
}

/// Appends the shown names of sort keys with `", "` between neighbours.
#[verifier::rlimit(40)]
pub(crate) fn push_sort_items(out: &mut String, md: &Metadata, items: &Vec<SortItem>)
    requires
        sort_items_valid(*md, items@),
    ensures
        final(out)@ == old(out)@ + sort_items_text(*md, items@),
{
    let ghost all = items@.map_values(|it: SortItem| sort_item_text(*md, it));
    let mut i: usize = 0;
    while i < items.len()
        invariant
            i <= items.len(),
            sort_items_valid(*md, items@),
            all == items@.map_values(|it: SortItem| sort_item_text(*md, it)),
            out@ == old(out)@ + seq_join(all.take(i as int), ", "@),
        decreases items.len() - i,
    {
        proof {
            assert(all.take(i as int + 1) =~= all.take(i as int).push(all[i as int]));
            lemma_join_push(all.take(i as int), all[i as int], ", "@);
        }
        if i > 0 {
            push_str(out, ", ");
        }
        push_sort_item(out, md, items[i]);
        i = i + 1;
    }
    assert(all.take(items.len() as int) =~= all);
}

pub(crate) fn push_limit(out: &mut String, limit: Option<usize>)
    ensures
        final(out)@ == old(out)@ + limit_text(limit),
{
    match limit {
        Some(l) => push_decimal(out, l as u64),
        None => push_str(out, "NONE"),
    }
}

/// The equalities of the first `k` key pairs, joined by `AND`.
pub(crate) proof fn lemma_and_chain_step(left: Seq<Scalar>, right: Seq<Scalar>, k: int)
    requires
        0 <= k < equalities(left, right).len(),
    ensures
        k == 0 ==> and_chain(equalities(left, right).take(k + 1)) == equality(left[k], right[k]),
        k > 0 ==> and_chain(equalities(left, right).take(k + 1)) == Scalar::AndExpr(
            AndExpr {
                left: Box::new(and_chain(equalities(left, right).take(k))),
                right: Box::new(equality(left[k], right[k])),
            },
        ),
{
    let preds = equalities(left, right);
    let t = preds.take(k + 1);
    assert(t.drop_last() =~= preds.take(k));
    assert(t.last() == preds[k]);
}

/// The equi-conditions of a join as one conjunction of key equalities.
pub(crate) fn equi_conditions(left: &Vec<Scalar>, right: &Vec<Scalar>) -> (res: String)
    ensures
        res@ == equi_conditions_text(left@, right@),
{
    let n: usize = if left.len() <= right.len() {
        left.len()
    } else {
        right.len()
    };
    let ghost preds = equalities(left@, right@);
    let mut acc = String::new();
    let mut k: usize = 0;
    while k < n
        invariant
            k <= n,
            n == preds.len(),
            n <= left.len(),
            n <= right.len(),
            preds == equalities(left@, right@),
            k == 0 ==> acc@ == Seq::<char>::empty(),
            k > 0 ==> acc@ == scalar_text(and_chain(preds.take(k as int))),
        decreases n - k,
    {
        let mut e = String::new();
        push_scalar(&mut e, &left[k]);
        push_str(&mut e, " ");
        push_comparison_op(&mut e, ComparisonOp::Equal);
        push_str(&mut e, " ");
        push_scalar(&mut e, &right[k]);
        proof {
            lemma_and_chain_step(left@, right@, k as int);
            assert(e@ =~= scalar_text(equality(left@[k as int], right@[k as int])));
        }
        if k == 0 {
            acc = e;
        } else {
            let mut next = String::new();
            push_str(&mut next, "(");
            push_str(&mut next, acc.as_str());
            push_str(&mut next, ") AND (");
            push_str(&mut next, e.as_str());
            push_str(&mut next, ")");
            assert(next@ =~= scalar_text(and_chain(preds.take(k as int + 1))));
            acc = next;
        }
        k = k + 1;
    }
    if n > 0 {
        assert(preds.take(n as int) =~= preds);
    }
    acc
}

/// Sorts pairs into ascending lexicographic order (`Itertools::sorted`,
/// which collects the pairs and sorts them with `slice::sort`); the
/// contract claims that the result holds the same pairs, sorted.
#[verifier::external_body]
pub(crate) fn sorted_pairs(pairs: Vec<(usize, usize)>) -> (res: Vec<(usize, usize)>)
    ensures
        res@.to_multiset() == pairs@.to_multiset(),
        sorted_by(res@, pair_order()),
{
    pairs.into_iter().sorted().collect()
}

/// Lexicographic order on pairs is a total order.
pub proof fn lemma_pair_order_total()
    ensures
        total_ordering(pair_order()),
{
    let r = pair_order();
    assert forall|a: (usize, usize), b: (usize, usize)| #[trigger] r(a, b) && #[trigger] r(b, a)
        implies a == b by {
        assert(a.0 == b.0 && a.1 == b.1);
    }
}

/// A sorted rearrangement of the (index, position) pairs of some items is
/// the one sorted order, and names positions of those items.
pub(crate) proof fn lemma_scalar_order(items: Seq<ScalarItem>, res: Seq<(usize, usize)>)
    requires
        items.len() <= usize::MAX,
        res.to_multiset() == index_pairs(items).to_multiset(),
        sorted_by(res, pair_order()),
    ensures
        res == index_pairs(items).sort_by(pair_order()),
        res.len() == items.len(),
        forall|i: int| 0 <= i < res.len() ==> (#[trigger] res[i]).1 < items.len(),
{
    let pairs = index_pairs(items);
    lemma_pair_order_total();
    pairs.lemma_sort_by_ensures(pair_order());
    let s = pairs.sort_by(pair_order());
    vstd::seq_lib::lemma_sorted_unique(res, s, pair_order());
    assert(res =~= s);
    vstd::seq_lib::to_multiset_len(res);
    vstd::seq_lib::to_multiset_len(pairs);
    assert forall|i: int| 0 <= i < res.len() implies (#[trigger] res[i]).1 < items.len() by {
        assert(s.contains(res[i]));
        assert(pairs.contains(res[i]));
        let j: int = choose|j: int| 0 <= j < pairs.len() && pairs[j] == res[i];
        assert(pairs[j].1 as int == j);
    }
}

/// Some pair of `order` names position `k`.
pub open spec fn names_position(order: Seq<(usize, usize)>, k: int) -> bool {
    exists|i: int| 0 <= i < order.len() && (#[trigger] order[i]).1 == k
}

/// An operator that evaluates scalar items shows them by ascending index,
/// items of equal index in their original order, each item once: the
/// sorted (index, position) pairs of the items name every position of the
/// items exactly once, each with that item's index, in that order.
pub proof fn lemma_index_order(items: Seq<ScalarItem>)
    requires
        items.len() <= usize::MAX,
    ensures
        index_pairs(items).sort_by(pair_order()).len() == items.len(),
        forall|i: int|
            0 <= i < items.len() ==> {
                let p = #[trigger] index_pairs(items).sort_by(pair_order())[i];
                p.1 < items.len() && p.0 == items[p.1 as int].index
            },
        forall|i: int, j: int|
            0 <= i < j < items.len() ==> {
                let p = #[trigger] index_pairs(items).sort_by(pair_order())[i];
                let q = #[trigger] index_pairs(items).sort_by(pair_order())[j];
                items[p.1 as int].index < items[q.1 as int].index || (items[p.1 as int].index
                    == items[q.1 as int].index && p.1 < q.1)
            },
        forall|k: int|
            0 <= k < items.len() ==> #[trigger] names_position(
                index_pairs(items).sort_by(pair_order()),
                k,
            ),
{
    let pairs = index_pairs(items);
    lemma_pair_order_total();
    pairs.lemma_sort_by_ensures(pair_order());
    let s = pairs.sort_by(pair_order());
    vstd::seq_lib::to_multiset_len(s);
    vstd::seq_lib::to_multiset_len(pairs);
    assert forall|i: int| 0 <= i < items.len() implies {
        let p = #[trigger] s[i];
        p.1 < items.len() && p.0 == items[p.1 as int].index
    } by {
        assert(s.contains(s[i]));
        assert(pairs.contains(s[i]));
        let j: int = choose|j: int| 0 <= j < pairs.len() && pairs[j] == s[i];
        assert(pairs[j].1 as int == j);
    }
    assert(pairs.no_duplicates()) by {
        assert forall|a: int, b: int| 0 <= a < pairs.len() && 0 <= b < pairs.len() && a != b
            implies pairs[a] != pairs[b] by {
            assert(pairs[a].1 as int == a);
            assert(pairs[b].1 as int == b);
        }
    }
    pairs.lemma_multiset_has_no_duplicates();
    s.lemma_multiset_has_no_duplicates_conv();
    assert forall|i: int, j: int| 0 <= i < j < items.len() implies {
        let p = #[trigger] s[i];
        let q = #[trigger] s[j];
        items[p.1 as int].index < items[q.1 as int].index || (items[p.1 as int].index
            == items[q.1 as int].index && p.1 < q.1)
    } by {
        assert(pair_order()(s[i], s[j]));
        assert(s[i] != s[j]);
        let pi = s[i];
        let qj = s[j];
        assert(pi.0 == items[pi.1 as int].index);
        assert(qj.0 == items[qj.1 as int].index);
    }
    assert forall|k: int| 0 <= k < items.len() implies #[trigger] names_position(s, k) by {
        let x = pairs[k];
        assert(x.1 as int == k);
        assert(pairs.contains(x));
        vstd::seq_lib::to_multiset_contains(pairs, x);
        vstd::seq_lib::to_multiset_contains(s, x);
        assert(s.to_multiset().count(x) == pairs.to_multiset().count(x));
        assert(s.contains(x));
        let i: int = choose|i: int| 0 <= i < s.len() && s[i] == x;
        assert(s[i].1 == k);
    }
}

} // verus!
