//! Explained plans: trees of labelled nodes, one per operator, with the
//! lines that describe it and then the trees of its inputs.

use vstd::prelude::*;

use crate::plans::{
    Aggregate, EvalScalar, Exchange, Filter, Limit, LogicalGet, LogicalJoin, Metadata, MetadataRef,
    PhysicalHashJoin, PhysicalScan, RelOperator, SExpr, Scalar, ScalarItem, Sort, SortItem,
    same_rel_operator, share_metadata,
};
use crate::text::{decimal, lemma_join_push, push_decimal, push_str, seq_join};
use super::scalar::{
    item_scalars, lemma_scalars_text_take, push_item_scalars, push_scalar, push_scalars,
    scalar_list_text, scalar_text, scalars_text,
};
use super::label::{FormatContext, context_text, rel_operator_text};
use super::lines::{
    equi_conditions, equi_conditions_text, index_pairs, lemma_limit_lines, lemma_scalar_order,
    op_lines, pair_order, push_limit,
    push_sort_items, rel_operator_valid, scalars_by_index, scan_lines, scan_valid, sort_items_valid,
    sorted_pairs,
};
use super::copy::copy_rel_operator;

verus! {

/// A node of a labelled tree.
#[derive(Debug)]
pub struct FormatTreeNode<T> {
    pub payload: T,
    pub children: Vec<FormatTreeNode<T>>,
}

impl<T> FormatTreeNode<T> {
    /// A node without children.
    pub fn new(payload: T) -> (res: Self)
        ensures
            res.payload == payload,
            res.children@.len() == 0,
    {
        FormatTreeNode { payload, children: Vec::new() }
    }

    /// A node over the given children.
    pub fn with_children(payload: T, children: Vec<FormatTreeNode<T>>) -> (res: Self)
        ensures
            res.payload == payload,
            res.children == children,
    {
        FormatTreeNode { payload, children }
    }
}

/// The texts that a labelled tree shows, node by node.
pub struct TextTree {
    pub text: Seq<char>,
    pub children: Seq<TextTree>,
}

/// A node that shows a text and has no children.
pub open spec fn leaf(text: Seq<char>) -> TextTree {
    TextTree { text, children: Seq::empty() }
}

/// The texts that a tree of nodes shows.
pub open spec fn tree_text(node: FormatTreeNode<FormatContext>) -> TextTree
    decreases node,
{
    TextTree { text: context_text(node.payload), children: forest_text(node.children@) }
}

/// The texts that a list of trees shows.
pub open spec fn forest_text(nodes: Seq<FormatTreeNode<FormatContext>>) -> Seq<TextTree>
    decreases nodes,
{
    if nodes.len() == 0 {
        Seq::empty()
    } else {
        forest_text(nodes.subrange(0, nodes.len() - 1)).push(tree_text(nodes[nodes.len() - 1]))
    }
}

/// The texts of a list of trees are the texts of each tree, in order.
pub proof fn lemma_forest_text(nodes: Seq<FormatTreeNode<FormatContext>>)
    ensures
        forest_text(nodes).len() == nodes.len(),
        forall|i: int| 0 <= i < nodes.len() ==> #[trigger] forest_text(nodes)[i] == tree_text(nodes[i]),
    decreases nodes.len(),
{
    if nodes.len() > 0 {
        let init = nodes.subrange(0, nodes.len() - 1);
        lemma_forest_text(init);
        assert forall|i: int| 0 <= i < nodes.len() implies #[trigger] forest_text(nodes)[i]
            == tree_text(nodes[i]) by {
            if i < nodes.len() - 1 {
                assert(init[i] == nodes[i]);
            }
        }
    }
}

/// The texts of two lists of trees placed one after the other.
pub proof fn lemma_forest_text_concat(
    a: Seq<FormatTreeNode<FormatContext>>,
    b: Seq<FormatTreeNode<FormatContext>>,
)
    ensures
        forest_text(a + b) == forest_text(a) + forest_text(b),
{
    lemma_forest_text(a);
    lemma_forest_text(b);
    lemma_forest_text(a + b);
    assert(forest_text(a + b) =~= forest_text(a) + forest_text(b));
}

/// A childless node that shows a line of text.
pub open spec fn is_line(node: FormatTreeNode<FormatContext>) -> bool {
    &&& node.payload is Text
    &&& node.children@.len() == 0
}

/// Every node of a list is a childless node that shows a line of text.
pub open spec fn all_lines(nodes: Seq<FormatTreeNode<FormatContext>>) -> bool {
    forall|i: int| 0 <= i < nodes.len() ==> is_line(#[trigger] nodes[i])
}

/// A childless node that shows `text`.
pub open spec fn is_text_node(node: FormatTreeNode<FormatContext>, text: Seq<char>) -> bool {
    &&& node.payload matches FormatContext::Text(s)
    &&& s@ == text
    &&& node.children@.len() == 0
}

/// The node of an operator: `payload`, over one childless text node for
/// each of `lines`, in order, and then the nodes `children`, unchanged.
pub open spec fn op_node(
    node: FormatTreeNode<FormatContext>,
    payload: FormatContext,
    lines: Seq<TextTree>,
    children: Seq<FormatTreeNode<FormatContext>>,
) -> bool {
    &&& node.payload == payload
    &&& node.children@.len() == lines.len() + children.len()
    &&& forall|i: int|
        0 <= i < lines.len() ==> is_text_node(#[trigger] node.children@[i], lines[i].text)
    &&& node.children@.skip(lines.len() as int) == children
}

/// A node that shows a line of text.
fn text_node(text: String) -> (res: FormatTreeNode<FormatContext>)
    ensures
        res.payload == FormatContext::Text(text),
        res.children@.len() == 0,
        is_line(res),
        tree_text(res) == leaf(text@),
{
    let res = FormatTreeNode::new(FormatContext::Text(text));
    assert(res.children@ =~= Seq::<FormatTreeNode<FormatContext>>::empty());
    res
}

/// A node labelled with `payload`, over the given lines of text and then
/// the given children.
fn labelled_node(
    payload: FormatContext,
    lines: Vec<FormatTreeNode<FormatContext>>,
    children: Vec<FormatTreeNode<FormatContext>>,
) -> (res: FormatTreeNode<FormatContext>)
    requires
        all_lines(lines@),
    ensures
        res.payload == payload,
        res.children@ == lines@ + children@,
        op_node(res, payload, forest_text(lines@), children@),
        tree_text(res) == (TextTree {
            text: context_text(payload),
            children: forest_text(lines@) + forest_text(children@),
        }),
{
    let mut all = lines;
    let mut rest = children;
    let ghost l = all@;
    let ghost c = rest@;
    all.append(&mut rest);
    proof {
        lemma_forest_text_concat(l, c);
        lemma_forest_text(l);
    }
    let res = FormatTreeNode::with_children(payload, all);
    assert forall|i: int| 0 <= i < forest_text(l).len() implies is_text_node(
        #[trigger] res.children@[i],
        forest_text(l)[i].text,
    ) by {
        assert(res.children@[i] == l[i]);
        assert(is_line(l[i]));
    }
    assert(res.children@.skip(forest_text(l).len() as int) =~= c);
    res
}

/// The texts shown for an operator over the texts of its children: its
/// label, the lines that describe it, then its children in order.
pub open spec fn op_tree(op: RelOperator, md: Metadata, kids: Seq<TextTree>) -> TextTree {
    TextTree { text: rel_operator_text(op), children: op_lines(op, md) + kids }
}

/// A text line: `prefix`, a list of scalar expressions, `]`.
fn scalars_line(prefix: &str, items: &Vec<Scalar>) -> (res: FormatTreeNode<FormatContext>)
    ensures
        is_line(res),
        tree_text(res) == leaf(prefix@ + scalar_list_text(items@) + "]"@),
{
    let mut s = String::new();
    push_str(&mut s, prefix);
    push_scalars(&mut s, items);
    push_str(&mut s, "]");
    text_node(s)
}

/// A text line: `prefix`, the scalars of a list of items, `]`.
fn item_scalars_line(prefix: &str, items: &Vec<ScalarItem>) -> (res: FormatTreeNode<FormatContext>)
    ensures
        is_line(res),
        tree_text(res) == leaf(prefix@ + scalar_list_text(item_scalars(items@)) + "]"@),
{
    let mut s = String::new();
    push_str(&mut s, prefix);
    push_item_scalars(&mut s, items);
    push_str(&mut s, "]");
    text_node(s)
}

fn one_line(a: FormatTreeNode<FormatContext>) -> (res: Vec<FormatTreeNode<FormatContext>>)
    requires
        is_line(a),
    ensures
        all_lines(res@),
        forest_text(res@) == seq![tree_text(a)],
{
    let mut v = Vec::new();
    v.push(a);
    proof {
        lemma_forest_text(v@);
    }
    assert(forest_text(v@) =~= seq![tree_text(a)]);
    v
}

fn two_lines(a: FormatTreeNode<FormatContext>, b: FormatTreeNode<FormatContext>) -> (res: Vec<
    FormatTreeNode<FormatContext>,
>)
    requires
        is_line(a),
        is_line(b),
    ensures
        all_lines(res@),
        forest_text(res@) == seq![tree_text(a), tree_text(b)],
{
    let mut v = Vec::new();
    v.push(a);
    v.push(b);
    proof {
        lemma_forest_text(v@);
    }
    assert(forest_text(v@) =~= seq![tree_text(a), tree_text(b)]);
    v
}

fn four_lines(
    a: FormatTreeNode<FormatContext>,
    b: FormatTreeNode<FormatContext>,
    c: FormatTreeNode<FormatContext>,
    d: FormatTreeNode<FormatContext>,
) -> (res: Vec<FormatTreeNode<FormatContext>>)
    requires
        is_line(a),
        is_line(b),
        is_line(c),
        is_line(d),
    ensures
        all_lines(res@),
        forest_text(res@) == seq![tree_text(a), tree_text(b), tree_text(c), tree_text(d)],
{
    let mut v = Vec::new();
    v.push(a);
    v.push(b);
    v.push(c);
    v.push(d);
    proof {
        lemma_forest_text(v@);
    }
    assert(forest_text(v@) =~= seq![tree_text(a), tree_text(b), tree_text(c), tree_text(d)]);
    v
}

/// The lines below a table scan.
fn scan_line_nodes(
    md: &Metadata,
    table_index: usize,
    predicates: &Option<Vec<Scalar>>,
    order_by: &Option<Vec<SortItem>>,
    limit: Option<usize>,
) -> (res: Vec<FormatTreeNode<FormatContext>>)
    requires
        scan_valid(*md, table_index, *order_by),
    ensures
        all_lines(res@),
        forest_text(res@) == scan_lines(*md, table_index, *predicates, *order_by, limit),
{
    let table = md.table(table_index);
    let mut t = String::new();
    push_str(&mut t, "table: ");
    push_str(&mut t, table.catalog());
    push_str(&mut t, ".");
    push_str(&mut t, table.database());
    push_str(&mut t, ".");
    push_str(&mut t, table.name());
    let mut f = String::new();
    push_str(&mut f, "filters: [");
    match predicates {
        Some(p) => push_scalars(&mut f, p),
        None => {},
    }
    push_str(&mut f, "]");
    let mut o = String::new();
    push_str(&mut o, "order by: [");
    match order_by {
        Some(items) => push_sort_items(&mut o, md, items),
        None => {},
    }
    push_str(&mut o, "]");
    let mut l = String::new();
    push_str(&mut l, "limit: ");
    push_limit(&mut l, limit);
    let res = four_lines(text_node(t), text_node(f), text_node(o), text_node(l));
    assert(forest_text(res@) =~= scan_lines(*md, table_index, *predicates, *order_by, limit));
    res
}

fn physical_scan_to_format_tree(
    op: PhysicalScan,
    metadata: MetadataRef,
    children: Vec<FormatTreeNode<FormatContext>>,
) -> (res: FormatTreeNode<FormatContext>)
    requires
        scan_valid(*metadata, op.table_index, op.order_by),
    ensures
        res.payload == (FormatContext::RelOp {
            metadata,
            rel_operator: Box::new(RelOperator::PhysicalScan(op)),
        }),
        tree_text(res) == op_tree(RelOperator::PhysicalScan(op), *metadata, forest_text(children@)),
        op_node(res, res.payload, op_lines(RelOperator::PhysicalScan(op), *metadata), children@),
{
    let lines = scan_line_nodes(
        &metadata,
        op.table_index,
        &op.push_down_predicates,
        &op.order_by,
        op.limit,
    );
    labelled_node(
        FormatContext::RelOp { metadata, rel_operator: Box::new(RelOperator::PhysicalScan(op)) },
        lines,
        children,
    )
}

fn logical_get_to_format_tree(
    op: LogicalGet,
    metadata: MetadataRef,
    children: Vec<FormatTreeNode<FormatContext>>,
) -> (res: FormatTreeNode<FormatContext>)
    requires
        scan_valid(*metadata, op.table_index, op.order_by),
    ensures
        res.payload == (FormatContext::RelOp {
            metadata,
            rel_operator: Box::new(RelOperator::LogicalGet(op)),
        }),
        tree_text(res) == op_tree(RelOperator::LogicalGet(op), *metadata, forest_text(children@)),
        op_node(res, res.payload, op_lines(RelOperator::LogicalGet(op), *metadata), children@),
{
    let lines = scan_line_nodes(
        &metadata,
        op.table_index,
        &op.push_down_predicates,
        &op.order_by,
        op.limit,
    );
    labelled_node(
        FormatContext::RelOp { metadata, rel_operator: Box::new(RelOperator::LogicalGet(op)) },
        lines,
        children,
    )
}

/// Explains a logical join: its label, its equi-conditions as one
/// conjunction of equalities of paired keys, its other conditions, then
/// its children.
pub fn logical_join_to_format_tree(
    op: LogicalJoin,
    metadata: MetadataRef,
    children: Vec<FormatTreeNode<FormatContext>>,
) -> (res: FormatTreeNode<FormatContext>)
    ensures
        res.payload == (FormatContext::RelOp {
            metadata,
            rel_operator: Box::new(RelOperator::LogicalJoin(op)),
        }),
        tree_text(res) == op_tree(RelOperator::LogicalJoin(op), *metadata, forest_text(children@)),
        op_node(res, res.payload, op_lines(RelOperator::LogicalJoin(op), *metadata), children@),
        is_text_node(
            res.children@[0],
            "equi conditions: ["@ + equi_conditions_text(op.left_conditions@, op.right_conditions@)
                + "]"@,
        ),
        is_text_node(
            res.children@[1],
            "non-equi conditions: ["@ + scalar_list_text(op.non_equi_conditions@) + "]"@,
        ),
{
    let equi = equi_conditions(&op.left_conditions, &op.right_conditions);
    let mut e = String::new();
    push_str(&mut e, "equi conditions: [");
    push_str(&mut e, equi.as_str());
    push_str(&mut e, "]");
    let lines = two_lines(
        text_node(e),
        scalars_line("non-equi conditions: [", &op.non_equi_conditions),
    );
    labelled_node(
        FormatContext::RelOp { metadata, rel_operator: Box::new(RelOperator::LogicalJoin(op)) },
        lines,
        children,
    )
}

fn physical_hash_join_to_format_tree(
    op: PhysicalHashJoin,
    metadata: MetadataRef,
    children: Vec<FormatTreeNode<FormatContext>>,
) -> (res: FormatTreeNode<FormatContext>)
    ensures
        res.payload == (FormatContext::RelOp {
            metadata,
            rel_operator: Box::new(RelOperator::PhysicalHashJoin(op)),
        }),
        tree_text(res) == op_tree(
            RelOperator::PhysicalHashJoin(op),
            *metadata,
            forest_text(children@),
        ),
        op_node(res, res.payload, op_lines(RelOperator::PhysicalHashJoin(op), *metadata), children@),
{
    let a = scalars_line("build keys: [", &op.build_keys);
    let b = scalars_line("probe keys: [", &op.probe_keys);
    let c = scalars_line("other filters: [", &op.non_equi_conditions);
    let mut lines = Vec::new();
    lines.push(a);
    lines.push(b);
    lines.push(c);
    proof {
        lemma_forest_text(lines@);
        assert(forest_text(lines@) =~= op_lines(RelOperator::PhysicalHashJoin(op), *metadata));
    }
    labelled_node(
        FormatContext::RelOp { metadata, rel_operator: Box::new(RelOperator::PhysicalHashJoin(op)) },
        lines,
        children,
    )
}

fn aggregate_to_format_tree(
    op: Aggregate,
    metadata: MetadataRef,
    children: Vec<FormatTreeNode<FormatContext>>,
) -> (res: FormatTreeNode<FormatContext>)
    ensures
        res.payload == (FormatContext::RelOp {
            metadata,
            rel_operator: Box::new(RelOperator::Aggregate(op)),
        }),
        tree_text(res) == op_tree(RelOperator::Aggregate(op), *metadata, forest_text(children@)),
        op_node(res, res.payload, op_lines(RelOperator::Aggregate(op), *metadata), children@),
{
    let lines = two_lines(
        item_scalars_line("group items: [", &op.group_items),
        item_scalars_line("aggregate functions: [", &op.aggregate_functions),
    );
    labelled_node(
        FormatContext::RelOp { metadata, rel_operator: Box::new(RelOperator::Aggregate(op)) },
        lines,
        children,
    )
}

fn filter_to_format_tree(
    op: Filter,
    metadata: MetadataRef,
    children: Vec<FormatTreeNode<FormatContext>>,
) -> (res: FormatTreeNode<FormatContext>)
    ensures
        res.payload == (FormatContext::RelOp {
            metadata,
            rel_operator: Box::new(RelOperator::Filter(op)),
        }),
        tree_text(res) == op_tree(RelOperator::Filter(op), *metadata, forest_text(children@)),
        op_node(res, res.payload, op_lines(RelOperator::Filter(op), *metadata), children@),
{
    let lines = one_line(scalars_line("filters: [", &op.predicates));
    labelled_node(
        FormatContext::RelOp { metadata, rel_operator: Box::new(RelOperator::Filter(op)) },
        lines,
        children,
    )
}

fn sort_to_format_tree(
    op: Sort,
    metadata: MetadataRef,
    children: Vec<FormatTreeNode<FormatContext>>,
) -> (res: FormatTreeNode<FormatContext>)
    requires
        sort_items_valid(*metadata, op.items@),
    ensures
        res.payload == (FormatContext::RelOp {
            metadata,
            rel_operator: Box::new(RelOperator::Sort(op)),
        }),
        tree_text(res) == op_tree(RelOperator::Sort(op), *metadata, forest_text(children@)),
        op_node(res, res.payload, op_lines(RelOperator::Sort(op), *metadata), children@),
{
    let mut keys = String::new();
    push_str(&mut keys, "sort keys: [");
    push_sort_items(&mut keys, &metadata, &op.items);
    push_str(&mut keys, "]");
    let mut limit = String::new();
    push_str(&mut limit, "limit: [");
    push_limit(&mut limit, op.limit);
    push_str(&mut limit, "]");
    let lines = two_lines(text_node(keys), text_node(limit));
    labelled_node(
        FormatContext::RelOp { metadata, rel_operator: Box::new(RelOperator::Sort(op)) },
        lines,
        children,
    )
}

fn limit_to_format_tree(
    op: Limit,
    metadata: MetadataRef,
    children: Vec<FormatTreeNode<FormatContext>>,
) -> (res: FormatTreeNode<FormatContext>)
    ensures
        res.payload == (FormatContext::RelOp {
            metadata,
            rel_operator: Box::new(RelOperator::Limit(op)),
        }),
        tree_text(res) == op_tree(RelOperator::Limit(op), *metadata, forest_text(children@)),
        op_node(res, res.payload, op_lines(RelOperator::Limit(op), *metadata), children@),
        op.limit matches Some(n) ==> is_text_node(
            res.children@[0],
            "limit: ["@ + decimal(n as nat) + "]"@,
        ),
        op.limit is None ==> is_text_node(res.children@[0], "limit: ["@ + decimal(0) + "]"@),
        is_text_node(res.children@[1], "offset: ["@ + decimal(op.offset as nat) + "]"@),
{
    let limit: usize = if let Some(val) = op.limit {
        val
    } else {
        0
    };
    let mut l = String::new();
    push_str(&mut l, "limit: [");
    push_decimal(&mut l, limit as u64);
    push_str(&mut l, "]");
    let mut o = String::new();
    push_str(&mut o, "offset: [");
    push_decimal(&mut o, op.offset as u64);
    push_str(&mut o, "]");
    assert(l@ =~= "limit: ["@ + decimal(
        match op.limit {
            Some(v) => v as nat,
            None => 0,
        },
    ) + "]"@);
    let lines = two_lines(text_node(l), text_node(o));
    assert(forest_text(lines@)[0] == op_lines(RelOperator::Limit(op), *metadata)[0]);
    assert(forest_text(lines@)[1] == op_lines(RelOperator::Limit(op), *metadata)[1]);
    assert(forest_text(lines@) =~= op_lines(RelOperator::Limit(op), *metadata));
    labelled_node(
        FormatContext::RelOp { metadata, rel_operator: Box::new(RelOperator::Limit(op)) },
        lines,
        children,
    )
}

fn exchange_to_format_tree(
    op: Exchange,
    metadata: MetadataRef,
    children: Vec<FormatTreeNode<FormatContext>>,
) -> (res: FormatTreeNode<FormatContext>)
    ensures
        res.payload == (FormatContext::RelOp {
            metadata,
            rel_operator: Box::new(RelOperator::Exchange(op)),
        }),
        tree_text(res) == op_tree(RelOperator::Exchange(op), *metadata, forest_text(children@)),
        op_node(res, res.payload, op_lines(RelOperator::Exchange(op), *metadata), children@),
{
    let lines = match &op {
        Exchange::Hash(keys) => one_line(scalars_line("Exchange(Hash): keys: [", keys)),
        _ => {
            let v: Vec<FormatTreeNode<FormatContext>> = Vec::new();
            assert(forest_text(v@) =~= Seq::<TextTree>::empty());
            v
        },
    };
    labelled_node(
        FormatContext::RelOp { metadata, rel_operator: Box::new(RelOperator::Exchange(op)) },
        lines,
        children,
    )
}

fn eval_scalar_to_format_tree(
    op: EvalScalar,
    metadata: MetadataRef,
    children: Vec<FormatTreeNode<FormatContext>>,
) -> (res: FormatTreeNode<FormatContext>)
    ensures
        res.payload == (FormatContext::RelOp {
            metadata,
            rel_operator: Box::new(RelOperator::EvalScalar(op)),
        }),
        tree_text(res) == op_tree(RelOperator::EvalScalar(op), *metadata, forest_text(children@)),
        op_node(res, res.payload, op_lines(RelOperator::EvalScalar(op), *metadata), children@),
{
    let items = &op.items;
    let mut pairs: Vec<(usize, usize)> = Vec::new();
    let mut i: usize = 0;
    while i < items.len()
        invariant
            i <= items.len(),
            pairs@ == index_pairs(items@).take(i as int),
        decreases items.len() - i,
    {
        pairs.push((items[i].index, i));
        i = i + 1;
        assert(pairs@ =~= index_pairs(items@).take(i as int));
    }
    assert(index_pairs(items@).take(items.len() as int) =~= index_pairs(items@));
    let order = sorted_pairs(pairs);
    proof {
        lemma_scalar_order(items@, order@);
    }
    let ghost by_index = scalars_by_index(items@);
    let mut s = String::new();
    push_str(&mut s, "scalars: [");
    let ghost start = s@;
    let mut k: usize = 0;
    while k < order.len()
        invariant
            k <= order.len(),
            order.len() == items.len(),
            forall|j: int| 0 <= j < order@.len() ==> (#[trigger] order@[j]).1 < items@.len(),
            by_index == scalars_by_index(items@),
            order@ == index_pairs(items@).sort_by(pair_order()),
            s@ == start + seq_join(scalars_text(by_index.take(k as int)), ", "@),
        decreases order.len() - k,
    {
        proof {
            lemma_scalars_text_take(by_index, k as int);
            lemma_join_push(scalars_text(by_index.take(k as int)), scalar_text(by_index[k as int]), ", "@);
        }
        if k > 0 {
            push_str(&mut s, ", ");
        }
        let position: usize = order[k].1;
        push_scalar(&mut s, &items[position].scalar);
        k = k + 1;
    }
    assert(by_index.take(order.len() as int) =~= by_index);
    push_str(&mut s, "]");
    let lines = one_line(text_node(s));
    labelled_node(
        FormatContext::RelOp { metadata, rel_operator: Box::new(RelOperator::EvalScalar(op)) },
        lines,
        children,
    )
}

/// Explains an operator over already explained children.
fn to_format_tree(
    rel_operator: RelOperator,
    metadata: MetadataRef,
    children: Vec<FormatTreeNode<FormatContext>>,
) -> (res: FormatTreeNode<FormatContext>)
    requires
        rel_operator_valid(rel_operator, *metadata),
    ensures
        res.payload == (FormatContext::RelOp { metadata, rel_operator: Box::new(rel_operator) }),
        tree_text(res) == op_tree(rel_operator, *metadata, forest_text(children@)),
        op_node(res, res.payload, op_lines(rel_operator, *metadata), children@),
{
    match rel_operator {
        RelOperator::PhysicalScan(op) => physical_scan_to_format_tree(op, metadata, children),
        RelOperator::LogicalJoin(op) => logical_join_to_format_tree(op, metadata, children),
        RelOperator::PhysicalHashJoin(op) => physical_hash_join_to_format_tree(
            op,
            metadata,
            children,
        ),
        RelOperator::LogicalGet(op) => logical_get_to_format_tree(op, metadata, children),
        RelOperator::EvalScalar(op) => eval_scalar_to_format_tree(op, metadata, children),
        RelOperator::Filter(op) => filter_to_format_tree(op, metadata, children),
        RelOperator::Aggregate(op) => aggregate_to_format_tree(op, metadata, children),
        RelOperator::Sort(op) => sort_to_format_tree(op, metadata, children),
        RelOperator::Limit(op) => limit_to_format_tree(op, metadata, children),
        RelOperator::Exchange(op) => exchange_to_format_tree(op, metadata, children),
        other => {
            let lines: Vec<FormatTreeNode<FormatContext>> = Vec::new();
            assert(forest_text(lines@) =~= Seq::<TextTree>::empty());
            labelled_node(
                FormatContext::RelOp { metadata, rel_operator: Box::new(other) },
                lines,
                children,
            )
        },
    }
}

/// Every operator of an expression tree reads only tables and columns
/// that the metadata holds.
pub open spec fn sexpr_valid(s: SExpr, md: Metadata) -> bool
    decreases s,
{
    rel_operator_valid(s.plan, md) && sexprs_valid(s.children@, md)
}

/// Every expression tree of a list is valid for the metadata.
pub open spec fn sexprs_valid(ss: Seq<SExpr>, md: Metadata) -> bool
    decreases ss,
{
    if ss.len() == 0 {
        true
    } else {
        sexprs_valid(ss.subrange(0, ss.len() - 1), md) && sexpr_valid(ss[ss.len() - 1], md)
    }
}

/// The texts that an expression tree is explained as: the texts of its
/// operator over the texts of its children, in order.
pub open spec fn sexpr_tree(s: SExpr, md: Metadata) -> TextTree
    decreases s,
{
    op_tree(s.plan, md, sexprs_tree(s.children@, md))
}

/// The texts that a list of expression trees is explained as, in order.
pub open spec fn sexprs_tree(ss: Seq<SExpr>, md: Metadata) -> Seq<TextTree>
    decreases ss,
{
    if ss.len() == 0 {
        Seq::empty()
    } else {
        sexprs_tree(ss.subrange(0, ss.len() - 1), md).push(sexpr_tree(ss[ss.len() - 1], md))
    }
}

proof fn lemma_sexprs_valid(ss: Seq<SExpr>, md: Metadata)
    requires
        sexprs_valid(ss, md),
    ensures
        forall|i: int| 0 <= i < ss.len() ==> #[trigger] sexpr_valid(ss[i], md),
    decreases ss.len(),
{
    if ss.len() > 0 {
        let init = ss.subrange(0, ss.len() - 1);
        lemma_sexprs_valid(init, md);
        assert forall|i: int| 0 <= i < ss.len() implies #[trigger] sexpr_valid(ss[i], md) by {
            if i < ss.len() - 1 {
                assert(init[i] == ss[i]);
            }
        }
    }
}

/// `node` explains `s`: the node of an operator that agrees in every field
/// with the operator of `s` and holds `metadata`, over one text node for
/// each line of that operator and then one node explaining each child of
/// `s`, in order.
pub open spec fn explains(node: FormatTreeNode<FormatContext>, s: SExpr, metadata: MetadataRef) -> bool
    decreases s,
{
    match node.payload {
        FormatContext::RelOp { metadata: m, rel_operator } => {
            let lines = op_lines(s.plan, *metadata);
            &&& m == metadata
            &&& same_rel_operator(*rel_operator, s.plan)
            &&& node.children@.len() == lines.len() + s.children@.len()
            &&& forall|i: int|
                0 <= i < lines.len() ==> is_text_node(#[trigger] node.children@[i], lines[i].text)
            &&& explains_all(node.children@.skip(lines.len() as int), s.children@, metadata)
        },
        FormatContext::Text(_) => false,
    }
}

/// Each of `nodes` explains the expression tree at the same place in `ss`.
pub open spec fn explains_all(
    nodes: Seq<FormatTreeNode<FormatContext>>,
    ss: Seq<SExpr>,
    metadata: MetadataRef,
) -> bool
    decreases ss,
{
    if ss.len() == 0 {
        nodes.len() == 0
    } else {
        &&& nodes.len() == ss.len()
        &&& explains_all(nodes.subrange(0, nodes.len() - 1), ss.subrange(0, ss.len() - 1), metadata)
        &&& explains(nodes[nodes.len() - 1], ss[ss.len() - 1], metadata)
    }
}

/// In an explained plan, a limit's node has first the line of its limit,
/// which shows `0` only when it has none, then the line of its offset,
/// then the nodes of its children.
pub proof fn lemma_explain_limit(
    node: FormatTreeNode<FormatContext>,
    s: SExpr,
    metadata: MetadataRef,
    l: Limit,
)
    requires
        explains(node, s, metadata),
        s.plan == RelOperator::Limit(l),
    ensures
        node.children@.len() == 2 + s.children@.len(),
        l.limit matches Some(n) ==> is_text_node(
            node.children@[0],
            "limit: ["@ + decimal(n as nat) + "]"@,
        ),
        l.limit is None ==> is_text_node(node.children@[0], "limit: ["@ + decimal(0) + "]"@),
        is_text_node(node.children@[1], "offset: ["@ + decimal(l.offset as nat) + "]"@),
{
    lemma_limit_lines(l, l, metadata_of(metadata));
    let lines = op_lines(s.plan, metadata_of(metadata));
    assert(is_text_node(node.children@[0], lines[0].text));
    assert(is_text_node(node.children@[1], lines[1].text));
}

/// In an explained plan, a logical join's node has first the line of its
/// equi-conditions, then the line of its other conditions, then the nodes
/// of its children.
pub proof fn lemma_explain_join(
    node: FormatTreeNode<FormatContext>,
    s: SExpr,
    metadata: MetadataRef,
    j: LogicalJoin,
)
    requires
        explains(node, s, metadata),
        s.plan == RelOperator::LogicalJoin(j),
    ensures
        node.children@.len() == 2 + s.children@.len(),
        is_text_node(
            node.children@[0],
            "equi conditions: ["@ + equi_conditions_text(j.left_conditions@, j.right_conditions@)
                + "]"@,
        ),
        is_text_node(
            node.children@[1],
            "non-equi conditions: ["@ + scalar_list_text(j.non_equi_conditions@) + "]"@,
        ),
{
    let lines = op_lines(s.plan, metadata_of(metadata));
    assert(is_text_node(node.children@[0], lines[0].text));
    assert(is_text_node(node.children@[1], lines[1].text));
}

/// The metadata that a handle refers to.
pub open spec fn metadata_of(m: MetadataRef) -> Metadata {
    *m
}

impl SExpr {
    /// Explains this expression tree: each operator becomes a node that
    /// shows the operator, with lines that describe it and then the nodes
    /// of its children.
    pub fn to_format_tree(&self, metadata: &MetadataRef) -> (res: FormatTreeNode<FormatContext>)
        requires
            sexpr_valid(*self, **metadata),
        ensures
            explains(res, *self, *metadata),
            tree_text(res) == sexpr_tree(*self, **metadata),
        decreases self,
    {
        let ghost md = metadata_of(*metadata);
        let mut children: Vec<FormatTreeNode<FormatContext>> = Vec::new();
        proof {
            lemma_sexprs_valid(self.children@, md);
        }
        let mut i: usize = 0;
        while i < self.children.len()
            invariant
                i <= self.children.len(),
                md == **metadata,
                sexpr_valid(*self, md),
                forall|j: int| 0 <= j < self.children@.len() ==> #[trigger] sexpr_valid(self.children@[j], md),
                forest_text(children@) == sexprs_tree(self.children@.take(i as int), md),
                explains_all(children@, self.children@.take(i as int), *metadata),
            decreases self.children.len() - i,
        {
            let child = self.children[i].to_format_tree(metadata);
            let ghost before = children@;
            children.push(child);
            proof {
                let t = self.children@.take(i as int + 1);
                assert(t.subrange(0, t.len() - 1) =~= self.children@.take(i as int));
                assert(children@.subrange(0, children@.len() - 1) =~= before);
                assert(t[t.len() - 1] == self.children@[i as int]);
            }
            i = i + 1;
        }
        assert(self.children@.take(self.children.len() as int) =~= self.children@);
        let plan = copy_rel_operator(self.plan());
        let ghost kids = children@;
        let res = to_format_tree(plan, share_metadata(metadata), children);
        assert(op_lines(plan, md) == op_lines(self.plan, md));
        assert(res.children@.skip(op_lines(self.plan, md).len() as int) == kids);
        res
    }
}

/// Explaining an operator over a single tree, as `SExpr::create_unary`
/// builds it, gives the operator's node with its lines and then the
/// explanation of that tree.
pub proof fn lemma_explain_unary(s: SExpr, child: SExpr, md: Metadata)
    requires
        s.children@ == seq![child],
    ensures
        sexpr_tree(s, md) == op_tree(s.plan, md, seq![sexpr_tree(child, md)]),
{
    let cs = s.children@;
    assert(cs.subrange(0, 0) =~= Seq::<SExpr>::empty());
    assert(sexprs_tree(Seq::<SExpr>::empty(), md) =~= Seq::<TextTree>::empty());
    assert(cs[0] == child);
    assert(sexprs_tree(cs, md) == sexprs_tree(cs.subrange(0, 0), md).push(sexpr_tree(cs[0], md)));
    assert(sexprs_tree(cs, md) =~= seq![sexpr_tree(child, md)]);
}

/// Explaining an operator without inputs, as `SExpr::create_leaf` builds
/// it, gives the operator's node with its lines only.
pub proof fn lemma_explain_leaf(s: SExpr, md: Metadata)
    requires
        s.children@.len() == 0,
    ensures
        sexpr_tree(s, md) == (TextTree { text: rel_operator_text(s.plan), children: op_lines(s.plan, md) }),
{
    assert(op_lines(s.plan, md) + Seq::<TextTree>::empty() =~= op_lines(s.plan, md));
}

} // verus!
