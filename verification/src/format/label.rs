//! The labels of operators and the contents of the nodes of an explained plan.

use vstd::prelude::*;
use vstd::string::StringExecFns;

use crate::plans::{
    Aggregate, AggregateMode, DummyTableScan, EvalScalar, Exchange, Filter, JoinType, Limit,
    LogicalGet, LogicalJoin, MetadataRef, PhysicalHashJoin, PhysicalScan, RelOperator, Sort,
    UnionAll,
};
use crate::text::push_str;

verus! {

/// The SQL spelling of a join type.
pub open spec fn join_type_text(t: JoinType) -> Seq<char> {
    match t {
        JoinType::Inner => "INNER"@,
        JoinType::Left => "LEFT OUTER"@,
        JoinType::Right => "RIGHT OUTER"@,
        JoinType::Full => "FULL OUTER"@,
        JoinType::Semi => "SEMI"@,
        JoinType::Anti => "ANTI"@,
        JoinType::Cross => "CROSS"@,
        JoinType::Mark => "MARK"@,
        JoinType::Single => "SINGLE"@,
    }
}

/// The label of a hash join: a cross join is named as such, any other
/// join by its type.
pub open spec fn hash_join_text(t: JoinType) -> Seq<char> {
    match t {
        JoinType::Cross => "CrossJoin"@,
        _ => "HashJoin: "@ + join_type_text(t),
    }
}

pub open spec fn aggregate_mode_text(m: AggregateMode) -> Seq<char> {
    match m {
        AggregateMode::Partial => "Partial"@,
        AggregateMode::Final => "Final"@,
        AggregateMode::Initial => "Initial"@,
    }
}

/// The label of an exchange: its kind.
pub open spec fn exchange_text(e: Exchange) -> Seq<char> {
    match e {
        Exchange::Hash(_) => "Exchange(Hash)"@,
        Exchange::Broadcast => "Exchange(Broadcast)"@,
        Exchange::Merge => "Exchange(Merge)"@,
    }
}

/// The label of an operator in an explained plan.
pub open spec fn rel_operator_text(op: RelOperator) -> Seq<char> {
    match op {
        RelOperator::LogicalGet(_) => "LogicalGet"@,
        RelOperator::LogicalJoin(j) => "LogicalJoin: "@ + join_type_text(j.join_type),
        RelOperator::PhysicalScan(_) => "PhysicalScan"@,
        RelOperator::PhysicalHashJoin(j) => hash_join_text(j.join_type),
        RelOperator::EvalScalar(_) => "EvalScalar"@,
        RelOperator::Filter(_) => "Filter"@,
        RelOperator::Aggregate(a) => "Aggregate("@ + aggregate_mode_text(a.mode) + ")"@,
        RelOperator::Sort(_) => "Sort"@,
        RelOperator::Limit(_) => "Limit"@,
        RelOperator::Exchange(e) => exchange_text(e),
        RelOperator::UnionAll(_) => "Union"@,
        RelOperator::Pattern(_) => "Pattern"@,
        RelOperator::DummyTableScan(_) => "DummyTableScan"@,
    }
}

fn push_join_type(out: &mut String, t: JoinType)
    ensures
        final(out)@ == old(out)@ + join_type_text(t),
{
    match t {
        JoinType::Inner => push_str(out, "INNER"),
        JoinType::Left => push_str(out, "LEFT OUTER"),
        JoinType::Right => push_str(out, "RIGHT OUTER"),
        JoinType::Full => push_str(out, "FULL OUTER"),
        JoinType::Semi => push_str(out, "SEMI"),
        JoinType::Anti => push_str(out, "ANTI"),
        JoinType::Cross => push_str(out, "CROSS"),
        JoinType::Mark => push_str(out, "MARK"),
        JoinType::Single => push_str(out, "SINGLE"),
    }
}

/// The label of a logical join: `LogicalJoin: ` and its join type.
pub fn format_logical_join(_metadata: &MetadataRef, op: &LogicalJoin) -> (res: String)
    ensures
        res@ == "LogicalJoin: "@ + join_type_text(op.join_type),
{
    let mut s = String::new();
    push_str(&mut s, "LogicalJoin: ");
    push_join_type(&mut s, op.join_type);
    s
}

/// The label of a hash join: `CrossJoin` for a cross join, otherwise
/// `HashJoin: ` and its join type.
pub fn format_hash_join(_metadata: &MetadataRef, op: &PhysicalHashJoin) -> (res: String)
    ensures
        res@ == hash_join_text(op.join_type),
{
    let mut s = String::new();
    match op.join_type {
        JoinType::Cross => {
            push_str(&mut s, "CrossJoin");
        },
        _ => {
            push_str(&mut s, "HashJoin: ");
            push_join_type(&mut s, op.join_type);
        },
    }
    assert(s@ =~= hash_join_text(op.join_type));
    s
}

/// The label of an aggregation: `Aggregate(` and its mode `)`.
pub fn format_aggregate(_metadata: &MetadataRef, op: &Aggregate) -> (res: String)
    ensures
        res@ == "Aggregate("@ + aggregate_mode_text(op.mode) + ")"@,
        op.mode == AggregateMode::Partial ==> res@ == "Aggregate(Partial)"@,
        op.mode == AggregateMode::Final ==> res@ == "Aggregate(Final)"@,
        op.mode == AggregateMode::Initial ==> res@ == "Aggregate(Initial)"@,
{
    proof {
        lemma_aggregate_label(*op, *op);
    }
    let mut s = String::new();
    push_str(&mut s, "Aggregate(");
    match op.mode {
        AggregateMode::Partial => push_str(&mut s, "Partial"),
        AggregateMode::Final => push_str(&mut s, "Final"),
        AggregateMode::Initial => push_str(&mut s, "Initial"),
    }
    push_str(&mut s, ")");
    s
}

/// The label of an exchange: `Exchange(` and its kind `)`.
pub fn format_exchange(_metadata: &MetadataRef, op: &Exchange) -> (res: String)
    ensures
        res@ == exchange_text(*op),
{
    let mut s = String::new();
    match op {
        Exchange::Hash(_) => push_str(&mut s, "Exchange(Hash)"),
        Exchange::Broadcast => push_str(&mut s, "Exchange(Broadcast)"),
        Exchange::Merge => push_str(&mut s, "Exchange(Merge)"),
    }
    assert(s@ =~= exchange_text(*op));
    s
}

/// An aggregation is labelled with its own mode, `Aggregate(Partial)`,
/// `Aggregate(Final)` or `Aggregate(Initial)`; aggregations of different
/// modes are labelled differently.
pub proof fn lemma_aggregate_label(a: Aggregate, b: Aggregate)
    ensures
        a.mode == AggregateMode::Partial ==> rel_operator_text(RelOperator::Aggregate(a))
            == "Aggregate(Partial)"@,
        a.mode == AggregateMode::Final ==> rel_operator_text(RelOperator::Aggregate(a))
            == "Aggregate(Final)"@,
        a.mode == AggregateMode::Initial ==> rel_operator_text(RelOperator::Aggregate(a))
            == "Aggregate(Initial)"@,
        a.mode != b.mode ==> rel_operator_text(RelOperator::Aggregate(a)) != rel_operator_text(
            RelOperator::Aggregate(b),
        ),
{
    reveal_strlit("Aggregate(");
    reveal_strlit(")");
    reveal_strlit("Partial");
    reveal_strlit("Final");
    reveal_strlit("Initial");
    reveal_strlit("Aggregate(Partial)");
    reveal_strlit("Aggregate(Final)");
    reveal_strlit("Aggregate(Initial)");
    assert("Aggregate("@ + "Partial"@ + ")"@ =~= "Aggregate(Partial)"@);
    assert("Aggregate("@ + "Final"@ + ")"@ =~= "Aggregate(Final)"@);
    assert("Aggregate("@ + "Initial"@ + ")"@ =~= "Aggregate(Initial)"@);
    let ta = rel_operator_text(RelOperator::Aggregate(a));
    let tb = rel_operator_text(RelOperator::Aggregate(b));
    if a.mode != b.mode && ta.len() == tb.len() {
        assert(ta[10] != tb[10]);
    }
}

/// Each join type is spelled by its own name, and different join types
/// differently.
pub proof fn lemma_join_type_names(a: JoinType, b: JoinType)
    ensures
        a == JoinType::Inner ==> join_type_text(a) == "INNER"@,
        a == JoinType::Left ==> join_type_text(a) == "LEFT OUTER"@,
        a == JoinType::Right ==> join_type_text(a) == "RIGHT OUTER"@,
        a == JoinType::Full ==> join_type_text(a) == "FULL OUTER"@,
        a == JoinType::Semi ==> join_type_text(a) == "SEMI"@,
        a == JoinType::Anti ==> join_type_text(a) == "ANTI"@,
        a == JoinType::Cross ==> join_type_text(a) == "CROSS"@,
        a == JoinType::Mark ==> join_type_text(a) == "MARK"@,
        a == JoinType::Single ==> join_type_text(a) == "SINGLE"@,
        a != b ==> join_type_text(a) != join_type_text(b),
{
    reveal_strlit("INNER");
    reveal_strlit("LEFT OUTER");
    reveal_strlit("RIGHT OUTER");
    reveal_strlit("FULL OUTER");
    reveal_strlit("SEMI");
    reveal_strlit("ANTI");
    reveal_strlit("CROSS");
    reveal_strlit("MARK");
    reveal_strlit("SINGLE");
    let ta = join_type_text(a);
    let tb = join_type_text(b);
    if a != b && ta.len() == tb.len() {
        assert(ta[0] != tb[0] || ta[1] != tb[1]);
    }
}

/// The labels of operators in an explained plan: a logical join shows
/// `LogicalJoin: ` and its join type; a hash join `CrossJoin` when it is a
/// cross join and `HashJoin: ` and its join type otherwise; an exchange
/// its kind; every other operator its name.
pub proof fn lemma_operator_labels(op: RelOperator)
    ensures
        op matches RelOperator::LogicalJoin(j) ==> rel_operator_text(op) == "LogicalJoin: "@
            + join_type_text(j.join_type),
        op matches RelOperator::PhysicalHashJoin(h) ==> rel_operator_text(op) == if h.join_type
            == JoinType::Cross {
            "CrossJoin"@
        } else {
            "HashJoin: "@ + join_type_text(h.join_type)
        },
        op matches RelOperator::Exchange(Exchange::Hash(_)) ==> rel_operator_text(op)
            == "Exchange(Hash)"@,
        op matches RelOperator::Exchange(Exchange::Broadcast) ==> rel_operator_text(op)
            == "Exchange(Broadcast)"@,
        op matches RelOperator::Exchange(Exchange::Merge) ==> rel_operator_text(op)
            == "Exchange(Merge)"@,
        op is LogicalGet ==> rel_operator_text(op) == "LogicalGet"@,
        op is PhysicalScan ==> rel_operator_text(op) == "PhysicalScan"@,
        op is EvalScalar ==> rel_operator_text(op) == "EvalScalar"@,
        op is Filter ==> rel_operator_text(op) == "Filter"@,
        op is Sort ==> rel_operator_text(op) == "Sort"@,
        op is Limit ==> rel_operator_text(op) == "Limit"@,
        op is UnionAll ==> rel_operator_text(op) == "Union"@,
        op is Pattern ==> rel_operator_text(op) == "Pattern"@,
        op is DummyTableScan ==> rel_operator_text(op) == "DummyTableScan"@,
{
}

/// What a node of an explained plan shows: an operator, or a line of text.
#[derive(Debug)]
pub enum FormatContext {
    RelOp { metadata: MetadataRef, rel_operator: Box<RelOperator> },
    Text(String),
}

/// The text that a node shows.
pub open spec fn context_text(c: FormatContext) -> Seq<char> {
    match c {
        FormatContext::RelOp { rel_operator, .. } => rel_operator_text(*rel_operator),
        FormatContext::Text(t) => t@,
    }
}

impl FormatContext {
    /// The text that this node shows.
    pub fn fmt(&self) -> (res: String)
        ensures
            res@ == context_text(*self),
    {
        match self {
            FormatContext::RelOp { metadata, rel_operator } => {
                let op: &RelOperator = rel_operator;
                match op {
                    RelOperator::LogicalGet(_) => String::from_str("LogicalGet"),
                    RelOperator::LogicalJoin(op) => format_logical_join(metadata, op),
                    RelOperator::PhysicalScan(_) => String::from_str("PhysicalScan"),
                    RelOperator::PhysicalHashJoin(op) => format_hash_join(metadata, op),
                    RelOperator::EvalScalar(_) => String::from_str("EvalScalar"),
                    RelOperator::Filter(_) => String::from_str("Filter"),
                    RelOperator::Aggregate(op) => format_aggregate(metadata, op),
                    RelOperator::Sort(_) => String::from_str("Sort"),
                    RelOperator::Limit(_) => String::from_str("Limit"),
                    RelOperator::Exchange(op) => format_exchange(metadata, op),
                    RelOperator::UnionAll(_) => String::from_str("Union"),
                    RelOperator::Pattern(_) => String::from_str("Pattern"),
                    RelOperator::DummyTableScan(_) => String::from_str("DummyTableScan"),
                }
            },
            FormatContext::Text(text) => String::from_str(text.as_str()),
        }
    }
}

} // verus!
