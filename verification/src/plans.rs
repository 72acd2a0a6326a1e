//! The relational plan model: scalar expressions, relational operators,
//! expression trees and the metadata that their indices refer to.

use vstd::prelude::*;

verus! {

/// A data type, as far as plans and output formats spell it: its name
/// (`Int32`, `String`, ...) and its SQL spelling.
#[derive(Clone, Debug)]
pub struct DataType {
    pub name: String,
    pub sql_name: String,
}

/// A constant value.
#[derive(Clone, Debug)]
pub enum DataValue {
    Null,
    Boolean(bool),
    Int64(i64),
    UInt64(u64),
    String(String),
}

#[derive(Clone, Copy, Debug, PartialEq, Eq)]
pub enum Visibility {
    Visible,
    InVisible,
}

/// A column as bound in a query, with the index that identifies it in the
/// metadata.
#[derive(Clone, Debug)]
pub struct ColumnBinding {
    pub database_name: Option<String>,
    pub table_name: Option<String>,
    pub column_name: String,
    pub index: usize,
    pub data_type: Box<DataType>,
    pub visibility: Visibility,
}

#[derive(Debug)]
pub struct BoundColumnRef {
    pub column: ColumnBinding,
}

#[derive(Debug)]
pub struct ConstantExpr {
    pub value: DataValue,
    pub data_type: Box<DataType>,
}

#[derive(Debug)]
pub struct AndExpr {
    pub left: Box<Scalar>,
    pub right: Box<Scalar>,
}

#[derive(Debug)]
pub struct OrExpr {
    pub left: Box<Scalar>,
    pub right: Box<Scalar>,
}

#[derive(Clone, Copy, Debug, PartialEq, Eq)]
pub enum ComparisonOp {
    Equal,
    NotEqual,
    GT,
    LT,
    GTE,
    LTE,
}

#[derive(Debug)]
pub struct ComparisonExpr {
    pub op: ComparisonOp,
    pub left: Box<Scalar>,
    pub right: Box<Scalar>,
}

#[derive(Debug)]
pub struct AggregateFunction {
    pub display_name: String,
    pub func_name: String,
    pub distinct: bool,
    pub args: Vec<Scalar>,
}

#[derive(Debug)]
pub struct FunctionCall {
    pub arguments: Vec<Scalar>,
    pub func_name: String,
}

#[derive(Debug)]
pub struct CastExpr {
    pub argument: Box<Scalar>,
    pub target_type: Box<DataType>,
}

#[derive(Debug)]
pub struct SubqueryExpr {
    pub output_column: usize,
}

/// A scalar expression.
#[derive(Debug)]
pub enum Scalar {
    BoundColumnRef(BoundColumnRef),
    ConstantExpr(ConstantExpr),
    AndExpr(AndExpr),
    OrExpr(OrExpr),
    ComparisonExpr(ComparisonExpr),
    AggregateFunction(AggregateFunction),
    FunctionCall(FunctionCall),
    CastExpr(CastExpr),
    SubqueryExpr(SubqueryExpr),
}

#[derive(Clone, Copy, Debug, PartialEq, Eq)]
pub enum JoinType {
    Inner,
    Left,
    Right,
    Full,
    Semi,
    Anti,
    Cross,
    Mark,
    Single,
}

#[derive(Clone, Copy, Debug, PartialEq, Eq)]
pub enum AggregateMode {
    Partial,
    Final,
    Initial,
}

/// An ordering key: a column index and its direction.
#[derive(Clone, Copy, Debug, PartialEq, Eq)]
pub struct SortItem {
    pub index: usize,
    pub asc: bool,
}

/// A scalar that defines the column with the given index.
#[derive(Debug)]
pub struct ScalarItem {
    pub scalar: Scalar,
    pub index: usize,
}

#[derive(Debug)]
pub struct LogicalGet {
    pub table_index: usize,
    pub push_down_predicates: Option<Vec<Scalar>>,
    pub limit: Option<usize>,
    pub order_by: Option<Vec<SortItem>>,
}

#[derive(Debug)]
pub struct PhysicalScan {
    pub table_index: usize,
    pub push_down_predicates: Option<Vec<Scalar>>,
    pub limit: Option<usize>,
    pub order_by: Option<Vec<SortItem>>,
}

#[derive(Debug)]
pub struct LogicalJoin {
    pub left_conditions: Vec<Scalar>,
    pub right_conditions: Vec<Scalar>,
    pub non_equi_conditions: Vec<Scalar>,
    pub join_type: JoinType,
}

#[derive(Debug)]
pub struct PhysicalHashJoin {
    pub build_keys: Vec<Scalar>,
    pub probe_keys: Vec<Scalar>,
    pub non_equi_conditions: Vec<Scalar>,
    pub join_type: JoinType,
}

#[derive(Debug)]
pub struct EvalScalar {
    pub items: Vec<ScalarItem>,
}

#[derive(Debug)]
pub struct Filter {
    pub predicates: Vec<Scalar>,
    pub is_having: bool,
}

#[derive(Debug)]
pub struct Aggregate {
    pub mode: AggregateMode,
    pub group_items: Vec<ScalarItem>,
    pub aggregate_functions: Vec<ScalarItem>,
}

#[derive(Debug)]
pub struct Sort {
    pub items: Vec<SortItem>,
    pub limit: Option<usize>,
}

#[derive(Debug)]
pub struct Limit {
    pub limit: Option<usize>,
    pub offset: usize,
}

/// How rows are redistributed between the producers and the consumer.
#[derive(Debug)]
pub enum Exchange {
    Hash(Vec<Scalar>),
    Broadcast,
    Merge,
}

#[derive(Debug)]
pub struct UnionAll {}

#[derive(Debug)]
pub struct PatternPlan {}

#[derive(Debug)]
pub struct DummyTableScan {}

/// A relational operator.
#[derive(Debug)]
pub enum RelOperator {
    LogicalGet(LogicalGet),
    LogicalJoin(LogicalJoin),
    PhysicalScan(PhysicalScan),
    PhysicalHashJoin(PhysicalHashJoin),
    EvalScalar(EvalScalar),
    Filter(Filter),
    Aggregate(Aggregate),
    Sort(Sort),
    Limit(Limit),
    Exchange(Exchange),
    UnionAll(UnionAll),
    Pattern(PatternPlan),
    DummyTableScan(DummyTableScan),
}

/// Two scalar expressions that agree in every field, lists of arguments
/// element by element: what a clone of an expression holds.
pub open spec fn same_scalar(a: Scalar, b: Scalar) -> bool
    decreases a,
{
    match a {
        Scalar::AndExpr(x) => match b {
            Scalar::AndExpr(y) => same_scalar(*x.left, *y.left) && same_scalar(*x.right, *y.right),
            _ => false,
        },
        Scalar::OrExpr(x) => match b {
            Scalar::OrExpr(y) => same_scalar(*x.left, *y.left) && same_scalar(*x.right, *y.right),
            _ => false,
        },
        Scalar::ComparisonExpr(x) => match b {
            Scalar::ComparisonExpr(y) => x.op == y.op && same_scalar(*x.left, *y.left)
                && same_scalar(*x.right, *y.right),
            _ => false,
        },
        Scalar::AggregateFunction(x) => match b {
            Scalar::AggregateFunction(y) => x.display_name == y.display_name && x.func_name
                == y.func_name && x.distinct == y.distinct && same_scalars(x.args@, y.args@),
            _ => false,
        },
        Scalar::FunctionCall(x) => match b {
            Scalar::FunctionCall(y) => x.func_name == y.func_name && same_scalars(
                x.arguments@,
                y.arguments@,
            ),
            _ => false,
        },
        Scalar::CastExpr(x) => match b {
            Scalar::CastExpr(y) => x.target_type == y.target_type && same_scalar(
                *x.argument,
                *y.argument,
            ),
            _ => false,
        },
        _ => a == b,
    }
}

/// Two lists of scalar expressions that agree element by element.
pub open spec fn same_scalars(a: Seq<Scalar>, b: Seq<Scalar>) -> bool
    decreases a,
{
    if a.len() == 0 {
        b.len() == 0
    } else {
        &&& b.len() == a.len()
        &&& same_scalars(a.subrange(0, a.len() - 1), b.subrange(0, b.len() - 1))
        &&& same_scalar(a[a.len() - 1], b[b.len() - 1])
    }
}

/// Two lists of scalar items that agree item by item.
pub open spec fn same_scalar_items(a: Seq<ScalarItem>, b: Seq<ScalarItem>) -> bool {
    &&& a.len() == b.len()
    &&& forall|i: int|
        0 <= i < a.len() ==> #[trigger] a[i].index == b[i].index && same_scalar(
            a[i].scalar,
            b[i].scalar,
        )
}

pub open spec fn same_opt_scalars(a: Option<Vec<Scalar>>, b: Option<Vec<Scalar>>) -> bool {
    match a {
        Some(x) => match b {
            Some(y) => same_scalars(x@, y@),
            None => false,
        },
        None => b is None,
    }
}

pub open spec fn same_opt_sort_items(a: Option<Vec<SortItem>>, b: Option<Vec<SortItem>>) -> bool {
    match a {
        Some(x) => match b {
            Some(y) => x@ == y@,
            None => false,
        },
        None => b is None,
    }
}

/// Two operators that agree in every field, lists element by element:
/// what a clone of an operator holds.
pub open spec fn same_rel_operator(a: RelOperator, b: RelOperator) -> bool {
    match a {
        RelOperator::LogicalGet(x) => match b {
            RelOperator::LogicalGet(y) => {
                &&& x.table_index == y.table_index
                &&& same_opt_scalars(x.push_down_predicates, y.push_down_predicates)
                &&& x.limit == y.limit
                &&& same_opt_sort_items(x.order_by, y.order_by)
            },
            _ => false,
        },
        RelOperator::PhysicalScan(x) => match b {
            RelOperator::PhysicalScan(y) => {
                &&& x.table_index == y.table_index
                &&& same_opt_scalars(x.push_down_predicates, y.push_down_predicates)
                &&& x.limit == y.limit
                &&& same_opt_sort_items(x.order_by, y.order_by)
            },
            _ => false,
        },
        RelOperator::LogicalJoin(x) => match b {
            RelOperator::LogicalJoin(y) => {
                &&& same_scalars(x.left_conditions@, y.left_conditions@)
                &&& same_scalars(x.right_conditions@, y.right_conditions@)
                &&& same_scalars(x.non_equi_conditions@, y.non_equi_conditions@)
                &&& x.join_type == y.join_type
            },
            _ => false,
        },
        RelOperator::PhysicalHashJoin(x) => match b {
            RelOperator::PhysicalHashJoin(y) => {
                &&& same_scalars(x.build_keys@, y.build_keys@)
                &&& same_scalars(x.probe_keys@, y.probe_keys@)
                &&& same_scalars(x.non_equi_conditions@, y.non_equi_conditions@)
                &&& x.join_type == y.join_type
            },
            _ => false,
        },
        RelOperator::EvalScalar(x) => match b {
            RelOperator::EvalScalar(y) => same_scalar_items(x.items@, y.items@),
            _ => false,
        },
        RelOperator::Filter(x) => match b {
            RelOperator::Filter(y) => same_scalars(x.predicates@, y.predicates@) && x.is_having
                == y.is_having,
            _ => false,
        },
        RelOperator::Aggregate(x) => match b {
            RelOperator::Aggregate(y) => {
                &&& x.mode == y.mode
                &&& same_scalar_items(x.group_items@, y.group_items@)
                &&& same_scalar_items(x.aggregate_functions@, y.aggregate_functions@)
            },
            _ => false,
        },
        RelOperator::Sort(x) => match b {
            RelOperator::Sort(y) => x.items@ == y.items@ && x.limit == y.limit,
            _ => false,
        },
        RelOperator::Exchange(Exchange::Hash(x)) => match b {
            RelOperator::Exchange(Exchange::Hash(y)) => same_scalars(x@, y@),
            _ => false,
        },
        _ => a == b,
    }
}

/// An expression tree: an operator over the trees that feed it.
#[derive(Debug)]
pub struct SExpr {
    pub plan: RelOperator,
    pub children: Vec<SExpr>,
}

impl SExpr {
    pub fn create_unary(plan: RelOperator, child: SExpr) -> (res: SExpr)
        ensures
            res.plan == plan,
            res.children@ == seq![child],
    {
        let mut children = Vec::new();
        children.push(child);
        SExpr { plan, children }
    }

    pub fn create_leaf(plan: RelOperator) -> (res: SExpr)
        ensures
            res.plan == plan,
            res.children@.len() == 0,
    {
        SExpr { plan, children: Vec::new() }
    }

    pub fn plan(&self) -> (res: &RelOperator)
        ensures
            *res == self.plan,
    {
        &self.plan
    }

    pub fn children(&self) -> (res: &Vec<SExpr>)
        ensures
            *res == self.children,
    {
        &self.children
    }
}

/// A table that a query reads.
#[derive(Clone, Debug)]
pub struct TableEntry {
    pub catalog: String,
    pub database: String,
    pub name: String,
    pub index: usize,
}

impl TableEntry {
    pub fn catalog(&self) -> (res: &str)
        ensures
            res@ == self.catalog@,
    {
        self.catalog.as_str()
    }

    pub fn database(&self) -> (res: &str)
        ensures
            res@ == self.database@,
    {
        self.database.as_str()
    }

    pub fn name(&self) -> (res: &str)
        ensures
            res@ == self.name@,
    {
        self.name.as_str()
    }
}

/// A column that a query reads from a table or derives.
#[derive(Clone, Debug)]
pub enum ColumnEntry {
    BaseTableColumn { table_index: usize, column_index: usize, column_name: String, data_type: DataType },
    DerivedColumn { column_index: usize, alias: String, data_type: DataType },
}

/// The name under which a column is shown.
pub open spec fn column_entry_name(entry: ColumnEntry) -> Seq<char> {
    match entry {
        ColumnEntry::BaseTableColumn { column_name, .. } => column_name@,
        ColumnEntry::DerivedColumn { alias, .. } => alias@,
    }
}

/// The tables and columns of a query, addressed by index.
#[derive(Clone, Debug)]
pub struct Metadata {
    pub tables: Vec<TableEntry>,
    pub columns: Vec<ColumnEntry>,
}

impl Metadata {
    pub fn table(&self, index: usize) -> (res: &TableEntry)
        requires
            index < self.tables@.len(),
        ensures
            *res == self.tables@[index as int],
    {
        &self.tables[index]
    }

    pub fn column(&self, index: usize) -> (res: &ColumnEntry)
        requires
            index < self.columns@.len(),
        ensures
            *res == self.columns@[index as int],
    {
        &self.columns[index]
    }

    /// The shown name of the column with the given index.
    pub fn column_name(&self, index: usize) -> (res: &str)
        requires
            index < self.columns@.len(),
        ensures
            res@ == column_entry_name(self.columns@[index as int]),
    {
        match self.column(index) {
            ColumnEntry::BaseTableColumn { column_name, .. } => column_name.as_str(),
            ColumnEntry::DerivedColumn { alias, .. } => alias.as_str(),
        }
    }
}

} // verus!

verus! {

/// Shared, read-only access to the metadata of a query.
pub type MetadataRef = std::sync::Arc<Metadata>;

/// Another handle on the same metadata (`Arc::clone`); the contract claims
/// that it refers to equal metadata.
#[verifier::external_body]
pub(crate) fn share_metadata(metadata: &MetadataRef) -> (res: MetadataRef)
    ensures
        res == *metadata,
{
    metadata.clone()
}

} // verus!

verus! {

impl Metadata {
    /// Adds a column derived by the query, named `alias`; its index is the
    /// number of columns before it.
    pub fn add_derived_column(&mut self, alias: String, data_type: DataType) -> (res: usize)
        requires
            old(self).columns@.len() < usize::MAX,
        ensures
            res == old(self).columns@.len(),
            final(self).tables == old(self).tables,
            final(self).columns@ == old(self).columns@.push(
                ColumnEntry::DerivedColumn { column_index: res, alias, data_type },
            ),
    {
        let column_index: usize = self.columns.len();
        let column_entry = ColumnEntry::DerivedColumn { column_index, alias, data_type };
        self.columns.push(column_entry);
        column_index
    }
}

} // verus!
