//! How scalar expressions are shown.

use vstd::prelude::*;

use crate::plans::{
    AggregateFunction, AndExpr, BoundColumnRef, CastExpr, ColumnBinding, ComparisonExpr,
    ComparisonOp, ConstantExpr, DataValue, FunctionCall, MetadataRef, OrExpr, Scalar, ScalarItem,
    SubqueryExpr,
};
use crate::text::{decimal, int_text, lemma_join_push, push_decimal, push_int, push_str, seq_join};

verus! {

/// The function name of a comparison operator.
pub open spec fn comparison_text(op: ComparisonOp) -> Seq<char> {
    match op {
        ComparisonOp::Equal => "="@,
        ComparisonOp::NotEqual => "<>"@,
        ComparisonOp::GT => ">"@,
        ComparisonOp::LT => "<"@,
        ComparisonOp::GTE => ">="@,
        ComparisonOp::LTE => "<="@,
    }
}

/// How a constant is shown.
pub open spec fn value_text(v: DataValue) -> Seq<char> {
    match v {
        DataValue::Null => "NULL"@,
        DataValue::Boolean(b) => if b {
            "true"@
        } else {
            "false"@
        },
        DataValue::Int64(i) => int_text(i as int),
        DataValue::UInt64(u) => decimal(u as nat),
        DataValue::String(s) => s@,
    }
}

/// How a bound column is shown: its (qualified) name and its index.
pub open spec fn column_ref_text(c: ColumnBinding) -> Seq<char> {
    match c.table_name {
        Some(t) => t@ + "."@ + c.column_name@ + " (#"@ + decimal(c.index as nat) + ")"@,
        None => c.column_name@ + " (#"@ + decimal(c.index as nat) + ")"@,
    }
}

/// How a scalar expression is shown.
pub open spec fn scalar_text(s: Scalar) -> Seq<char>
    decreases s,
{
    match s {
        Scalar::BoundColumnRef(c) => column_ref_text(c.column),
        Scalar::ConstantExpr(c) => value_text(c.value),
        Scalar::AndExpr(a) => "("@ + scalar_text(*a.left) + ") AND ("@ + scalar_text(*a.right)
            + ")"@,
        Scalar::OrExpr(o) => "("@ + scalar_text(*o.left) + ") OR ("@ + scalar_text(*o.right)
            + ")"@,
        Scalar::ComparisonExpr(c) => scalar_text(*c.left) + " "@ + comparison_text(c.op) + " "@
            + scalar_text(*c.right),
        Scalar::AggregateFunction(a) => a.display_name@,
        Scalar::FunctionCall(f) => f.func_name@ + "("@ + seq_join(
            scalars_text(f.arguments@),
            ", "@,
        ) + ")"@,
        Scalar::CastExpr(c) => "CAST("@ + scalar_text(*c.argument) + " AS "@
            + c.target_type.sql_name@ + ")"@,
        Scalar::SubqueryExpr(_) => "SUBQUERY"@,
    }
}

/// How each of a list of scalar expressions is shown.
pub open spec fn scalars_text(ss: Seq<Scalar>) -> Seq<Seq<char>>
    decreases ss,
{
    if ss.len() == 0 {
        Seq::empty()
    } else {
        scalars_text(ss.subrange(0, ss.len() - 1)).push(scalar_text(ss[ss.len() - 1]))
    }
}

/// A list of scalar expressions shown with `", "` between neighbours.
pub open spec fn scalar_list_text(ss: Seq<Scalar>) -> Seq<char> {
    seq_join(scalars_text(ss), ", "@)
}

/// The scalars of a list of scalar items.
pub open spec fn item_scalars(items: Seq<ScalarItem>) -> Seq<Scalar> {
    items.map_values(|it: ScalarItem| it.scalar)
}

/// The texts of a prefix of a list of scalars are a prefix of the texts.
pub(crate) proof fn lemma_scalars_text_take(ss: Seq<Scalar>, i: int)
    requires
        0 <= i < ss.len(),
    ensures
        scalars_text(ss.take(i + 1)) == scalars_text(ss.take(i)).push(scalar_text(ss[i])),
{
    let t = ss.take(i + 1);
    assert(t.subrange(0, t.len() - 1) =~= ss.take(i));
}

/// The text of a whole list of scalars has one entry per scalar.
pub proof fn lemma_scalars_text_len(ss: Seq<Scalar>)
    ensures
        scalars_text(ss).len() == ss.len(),
        forall|i: int| 0 <= i < ss.len() ==> #[trigger] scalars_text(ss)[i] == scalar_text(ss[i]),
    decreases ss.len(),
{
    if ss.len() > 0 {
        let init = ss.subrange(0, ss.len() - 1);
        lemma_scalars_text_len(init);
        assert forall|i: int| 0 <= i < ss.len() implies #[trigger] scalars_text(ss)[i]
            == scalar_text(ss[i]) by {
            if i < ss.len() - 1 {
                assert(init[i] == ss[i]);
            }
        }
    }
}

pub(crate) fn push_comparison_op(out: &mut String, op: ComparisonOp)
    ensures
        final(out)@ == old(out)@ + comparison_text(op),
{
    match op {
        ComparisonOp::Equal => push_str(out, "="),
        ComparisonOp::NotEqual => push_str(out, "<>"),
        ComparisonOp::GT => push_str(out, ">"),
        ComparisonOp::LT => push_str(out, "<"),
        ComparisonOp::GTE => push_str(out, ">="),
        ComparisonOp::LTE => push_str(out, "<="),
    }
}

/// Each comparison operator is named by its own symbol, `=`, `<>`, `>`,
/// `<`, `>=` or `<=`, and different operators by different symbols.
pub proof fn lemma_comparison_names(a: ComparisonOp, b: ComparisonOp)
    ensures
        a == ComparisonOp::Equal ==> comparison_text(a) == "="@,
        a == ComparisonOp::NotEqual ==> comparison_text(a) == "<>"@,
        a == ComparisonOp::GT ==> comparison_text(a) == ">"@,
        a == ComparisonOp::LT ==> comparison_text(a) == "<"@,
        a == ComparisonOp::GTE ==> comparison_text(a) == ">="@,
        a == ComparisonOp::LTE ==> comparison_text(a) == "<="@,
        a != b ==> comparison_text(a) != comparison_text(b),
{
    reveal_strlit("=");
    reveal_strlit("<>");
    reveal_strlit(">");
    reveal_strlit("<");
    reveal_strlit(">=");
    reveal_strlit("<=");
    let ta = comparison_text(a);
    let tb = comparison_text(b);
    if a != b && ta.len() == tb.len() {
        if ta.len() == 1 {
            assert(ta[0] != tb[0]);
        } else {
            assert(ta[0] != tb[0] || ta[1] != tb[1]);
        }
    }
}

/// A comparison is shown as its left side, the name of its operator and
/// its right side, separated by single spaces; so comparisons of the same
/// sides with different operators are shown differently.
pub proof fn lemma_comparison_text(c: ComparisonExpr, d: ComparisonExpr)
    ensures
        scalar_text(Scalar::ComparisonExpr(c)) == scalar_text(*c.left) + " "@ + comparison_text(c.op)
            + " "@ + scalar_text(*c.right),
        c.left == d.left && c.right == d.right && c.op != d.op ==> scalar_text(
            Scalar::ComparisonExpr(c),
        ) != scalar_text(Scalar::ComparisonExpr(d)),
{
    if c.left == d.left && c.right == d.right && c.op != d.op {
        lemma_comparison_names(c.op, d.op);
        let pre = scalar_text(*c.left) + " "@;
        let tc = scalar_text(Scalar::ComparisonExpr(c));
        let td = scalar_text(Scalar::ComparisonExpr(d));
        let nc = comparison_text(c.op);
        let nd = comparison_text(d.op);
        reveal_strlit(" ");
        let post = " "@ + scalar_text(*c.right);
        assert(tc =~= pre + nc + post);
        assert(td =~= pre + nd + post);
        if tc == td {
            if nc.len() == nd.len() {
                assert forall|i: int| 0 <= i < nc.len() implies nc[i] == nd[i] by {
                    assert(tc[pre.len() + i] == nc[i]);
                    assert(td[pre.len() + i] == nd[i]);
                }
                assert(nc =~= nd);
            } else {
                assert(tc.len() != td.len());
            }
        }
    }
}

/// How each kind of scalar expression is shown: a column by its
/// (qualified) name and `(#index)`; a constant by its value, `NULL`,
/// `true`, `false`, its decimal digits with `-` when negative, or its
/// text; a conjunction and a disjunction as both sides in brackets around
/// `AND` or `OR`; a call as its name and its arguments in brackets; a cast
/// as `CAST(argument AS type)`; an aggregate by its display name; a
/// subquery as `SUBQUERY`.
pub proof fn lemma_scalar_shapes(s: Scalar)
    ensures
        s matches Scalar::BoundColumnRef(c) ==> scalar_text(s) == match c.column.table_name {
            Some(t) => t@ + "."@ + c.column.column_name@ + " (#"@ + decimal(c.column.index as nat)
                + ")"@,
            None => c.column.column_name@ + " (#"@ + decimal(c.column.index as nat) + ")"@,
        },
        s matches Scalar::ConstantExpr(c) ==> scalar_text(s) == match c.value {
            DataValue::Null => "NULL"@,
            DataValue::Boolean(b) => if b {
                "true"@
            } else {
                "false"@
            },
            DataValue::Int64(i) => if i < 0 {
                seq!['-'] + decimal((-i) as nat)
            } else {
                decimal(i as nat)
            },
            DataValue::UInt64(u) => decimal(u as nat),
            DataValue::String(t) => t@,
        },
        s matches Scalar::AndExpr(a) ==> scalar_text(s) == "("@ + scalar_text(*a.left)
            + ") AND ("@ + scalar_text(*a.right) + ")"@,
        s matches Scalar::OrExpr(o) ==> scalar_text(s) == "("@ + scalar_text(*o.left) + ") OR ("@
            + scalar_text(*o.right) + ")"@,
        s matches Scalar::FunctionCall(f) ==> scalar_text(s) == f.func_name@ + "("@ + seq_join(
            scalars_text(f.arguments@),
            ", "@,
        ) + ")"@,
        s matches Scalar::CastExpr(c) ==> scalar_text(s) == "CAST("@ + scalar_text(*c.argument)
            + " AS "@ + c.target_type.sql_name@ + ")"@,
        s matches Scalar::AggregateFunction(a) ==> scalar_text(s) == a.display_name@,
        s is SubqueryExpr ==> scalar_text(s) == "SUBQUERY"@,
{
}

impl ComparisonOp {
    /// The name of the function that the comparison calls.
    pub fn to_func_name(&self) -> (res: String)
        ensures
            res@ == comparison_text(*self),
    {
        let mut s = String::new();
        push_comparison_op(&mut s, *self);
        assert(s@ =~= comparison_text(*self));
        s
    }
}

fn push_value(out: &mut String, v: &DataValue)
    ensures
        final(out)@ == old(out)@ + value_text(*v),
{
    match v {
        DataValue::Null => push_str(out, "NULL"),
        DataValue::Boolean(b) => {
            if *b {
                push_str(out, "true")
            } else {
                push_str(out, "false")
            }
        },
        DataValue::Int64(i) => push_int(out, *i),
        DataValue::UInt64(u) => push_decimal(out, *u),
        DataValue::String(s) => push_str(out, s.as_str()),
    }
}

fn push_column_ref(out: &mut String, c: &ColumnBinding)
    ensures
        final(out)@ == old(out)@ + column_ref_text(*c),
{
    if let Some(table_name) = &c.table_name {
        push_str(out, table_name.as_str());
        push_str(out, ".");
    }
    push_str(out, c.column_name.as_str());
    push_str(out, " (#");
    push_decimal(out, c.index as u64);
    push_str(out, ")");
    assert(out@ =~= old(out)@ + column_ref_text(*c));
}

/// Appends how a scalar expression is shown.
pub(crate) fn push_scalar(out: &mut String, scalar: &Scalar)
    ensures
        final(out)@ == old(out)@ + scalar_text(*scalar),
    decreases scalar,
{
    match scalar {
        Scalar::BoundColumnRef(column_ref) => push_column_ref(out, &column_ref.column),
        Scalar::ConstantExpr(constant) => push_value(out, &constant.value),
        Scalar::AndExpr(and) => {
            push_str(out, "(");
            push_scalar(out, &and.left);
            push_str(out, ") AND (");
            push_scalar(out, &and.right);
            push_str(out, ")");
        },
        Scalar::OrExpr(or) => {
            push_str(out, "(");
            push_scalar(out, &or.left);
            push_str(out, ") OR (");
            push_scalar(out, &or.right);
            push_str(out, ")");
        },
        Scalar::ComparisonExpr(comp) => {
            push_scalar(out, &comp.left);
            push_str(out, " ");
            push_comparison_op(out, comp.op);
            push_str(out, " ");
            push_scalar(out, &comp.right);
        },
        Scalar::AggregateFunction(agg) => push_str(out, agg.display_name.as_str()),
        Scalar::FunctionCall(func) => {
            push_str(out, func.func_name.as_str());
            push_str(out, "(");
            push_scalars(out, &func.arguments);
            push_str(out, ")");
        },
        Scalar::CastExpr(cast) => {
            push_str(out, "CAST(");
            push_scalar(out, &cast.argument);
            push_str(out, " AS ");
            push_str(out, cast.target_type.sql_name.as_str());
            push_str(out, ")");
        },
        Scalar::SubqueryExpr(_) => push_str(out, "SUBQUERY"),
    }
    assert(out@ =~= old(out)@ + scalar_text(*scalar));
}

/// Shows a scalar expression.
pub fn format_scalar(_metadata: &MetadataRef, scalar: &Scalar) -> (res: String)
    ensures
        res@ == scalar_text(*scalar),
{
    let mut s = String::new();
    push_scalar(&mut s, scalar);
    assert(s@ =~= scalar_text(*scalar));
    s
}

/// Appends a list of scalar expressions with `", "` between neighbours.
pub(crate) fn push_scalars(out: &mut String, items: &Vec<Scalar>)
    ensures
        final(out)@ == old(out)@ + scalar_list_text(items@),
    decreases items,
{
    let mut i: usize = 0;
    while i < items.len()
        invariant
            i <= items.len(),
            out@ == old(out)@ + seq_join(scalars_text(items@.take(i as int)), ", "@),
        decreases items.len() - i,
    {
        proof {
            lemma_scalars_text_take(items@, i as int);
            lemma_join_push(scalars_text(items@.take(i as int)), scalar_text(items@[i as int]), ", "@);
        }
        if i > 0 {
            push_str(out, ", ");
        }
        push_scalar(out, &items[i]);
        i = i + 1;
    }
    assert(items@.take(items.len() as int) =~= items@);
}

/// Appends the scalars of a list of items with `", "` between neighbours.
pub(crate) fn push_item_scalars(out: &mut String, items: &Vec<ScalarItem>)
    ensures
        final(out)@ == old(out)@ + scalar_list_text(item_scalars(items@)),
{
    let ghost all = item_scalars(items@);
    let mut i: usize = 0;
    while i < items.len()
        invariant
            i <= items.len(),
            all == item_scalars(items@),
            out@ == old(out)@ + seq_join(scalars_text(all.take(i as int)), ", "@),
        decreases items.len() - i,
    {
        proof {
            lemma_scalars_text_take(all, i as int);
            lemma_join_push(scalars_text(all.take(i as int)), scalar_text(all[i as int]), ", "@);
        }
        if i > 0 {
            push_str(out, ", ");
        }
        push_scalar(out, &items[i].scalar);
        i = i + 1;
    }
    assert(all.take(items.len() as int) =~= all);
}

} // verus!
