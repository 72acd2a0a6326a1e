//! The decisions of binding a statement: which statements become a plan
//! at once, which are rewritten to a query over a system table, and which
//! are handed on; and the columns that binding derives.

use vstd::prelude::*;
use vstd::string::StringExecFns;

use crate::plans::{
    ColumnBinding, ColumnEntry, DataType, Metadata, SExpr, Visibility, column_entry_name,
};

verus! {

/// A user and the host it connects from.
#[derive(Debug)]
pub struct UserIdentity {
    pub username: String,
    pub hostname: String,
}

/// Whom a grant is for.
#[derive(Debug)]
pub enum PrincipalIdentity {
    User(UserIdentity),
    Role(String),
}

/// What an `EXPLAIN` shows.
#[derive(Clone, Debug)]
pub enum ExplainKind {
    Syntax(String),
    Graph,
    Pipeline,
    Fragments,
    Raw,
    Plan,
    Ast(String),
}

/// The statements whose binding this module decides; every other kind of
/// statement is bound by a binder of its own and is named by its kind.
#[derive(Debug)]
pub enum Statement {
    Query { ignore_result: bool },
    Explain { query: Box<Statement>, kind: ExplainKind },
    ShowMetrics,
    ShowProcessList,
    ShowEngines,
    UseDatabase { database: String },
    DropUser { if_exists: bool, user: UserIdentity },
    ShowUsers,
    ShowRoles,
    CreateRole { if_not_exists: bool, role_name: String },
    DropRole { if_exists: bool, role_name: String },
    ShowStages,
    DescribeStage { stage_name: String },
    DropStage { stage_name: String, if_exists: bool },
    ShowGrants { principal: Option<PrincipalIdentity> },
    DropUDF { if_exists: bool, udf_name: String },
    Call { name: String, args: Vec<String> },
    CreateUDF {
        if_not_exists: bool,
        udf_name: String,
        parameters: Vec<String>,
        definition: String,
        description: Option<String>,
    },
    AlterUDF {
        udf_name: String,
        parameters: Vec<String>,
        definition: String,
        description: Option<String>,
    },
    Other(String),
}

/// Which statement a query rewritten from another statement stands for.
#[derive(Clone, Copy, Debug, PartialEq, Eq)]
pub enum RewriteKind {
    ShowMetrics,
    ShowProcessList,
    ShowEngines,
    ShowUsers,
    ShowStages,
    DescribeStage,
}

/// A function defined by the user: its name, its parameters, the text of
/// its definition and a description.
#[derive(Debug)]
pub struct UserDefinedFunction {
    pub name: String,
    pub parameters: Vec<String>,
    pub definition: String,
    pub description: String,
}

/// A plan.
#[derive(Debug)]
pub enum Plan {
    Query { s_expr: Box<SExpr>, rewrite_kind: Option<RewriteKind>, ignore_result: bool },
    Explain { kind: ExplainKind, plan: Box<Plan> },
    ExplainAst { formatted_string: String },
    ExplainSyntax { formatted_sql: String },
    UseDatabase { database: String },
    DropUser { if_exists: bool, user: UserIdentity },
    ShowRoles,
    CreateRole { if_not_exists: bool, role_name: String },
    DropRole { if_exists: bool, role_name: String },
    DropStage { if_exists: bool, name: String },
    ShowGrants { principal: Option<PrincipalIdentity> },
    DropUDF { if_exists: bool, name: String },
    Call { name: String, args: Vec<String> },
    CreateUDF { if_not_exists: bool, udf: UserDefinedFunction },
    AlterUDF { udf: UserDefinedFunction },
}

/// The first step of binding a statement.
#[derive(Debug)]
pub enum BindStep {
    /// The statement is bound: this is its plan.
    Plan(Plan),
    /// Bind the query; its plan is a query plan that ignores its result or
    /// not.
    BindQuery { ignore_result: bool },
    /// Parse and bind `query` instead, and mark the plan with `kind`.
    Rewrite { query: String, kind: RewriteKind },
    /// Bind the explained statement and explain its plan.
    Explain,
    /// Check the definition of a function against its parameters; when it
    /// passes, the plan is `create_udf_plan` or `alter_udf_plan` of the
    /// statement.
    ValidateUdf,
    /// Hand the statement to the binder of its kind.
    Delegate,
}

/// The query over the system tables that stands for a stage's
/// description.
pub open spec fn describe_stage_query(stage_name: Seq<char>) -> Seq<char> {
    "SELECT * FROM system.stages WHERE name = '"@ + stage_name + "'"@
}

/// The query that a statement is rewritten to, with the kind of the
/// rewrite, for the statements that are rewritten.
pub open spec fn rewrite_of(stmt: Statement) -> Option<(Seq<char>, RewriteKind)> {
    match stmt {
        Statement::ShowMetrics => Some(
            ("SELECT metric, kind, labels, value FROM system.metrics"@, RewriteKind::ShowMetrics),
        ),
        Statement::ShowProcessList => Some(
            ("SELECT * FROM system.processes"@, RewriteKind::ShowProcessList),
        ),
        Statement::ShowEngines => Some(
            (
                "SELECT \"Engine\", \"Comment\" FROM system.engines ORDER BY \"Engine\" ASC"@,
                RewriteKind::ShowEngines,
            ),
        ),
        Statement::ShowUsers => Some(
            (
                "SELECT name, hostname, auth_type, auth_string FROM system.users ORDER BY name"@,
                RewriteKind::ShowUsers,
            ),
        ),
        Statement::ShowStages => Some(
            (
                "SELECT name, stage_type, number_of_files, creator, comment FROM system.stages ORDER BY name"@,
                RewriteKind::ShowStages,
            ),
        ),
        Statement::DescribeStage { stage_name } => Some(
            (describe_stage_query(stage_name@), RewriteKind::DescribeStage),
        ),
        _ => None,
    }
}

fn copy_user(u: &UserIdentity) -> (r: UserIdentity)
    ensures
        r == *u,
{
    UserIdentity { username: u.username.clone(), hostname: u.hostname.clone() }
}

fn copy_principal(p: &Option<PrincipalIdentity>) -> (r: Option<PrincipalIdentity>)
    ensures
        r == *p,
{
    match p {
        Some(PrincipalIdentity::User(u)) => Some(PrincipalIdentity::User(copy_user(u))),
        Some(PrincipalIdentity::Role(r)) => Some(PrincipalIdentity::Role(r.clone())),
        None => None,
    }
}

fn copy_strings(v: &Vec<String>) -> (r: Vec<String>)
    ensures
        r@ == v@,
{
    let mut r: Vec<String> = Vec::new();
    let mut i: usize = 0;
    while i < v.len()
        invariant
            i <= v.len(),
            r@ == v@.take(i as int),
        decreases v.len() - i,
    {
        r.push(v[i].clone());
        i = i + 1;
        assert(r@ =~= v@.take(i as int));
    }
    assert(v@.take(v.len() as int) =~= v@);
    r
}

/// Decides how a statement is bound.
///
/// Show-statements over system tables are rewritten to queries; the
/// statements about databases in use, users, roles, stages, grants,
/// dropped functions and calls become their plans at once; a function's
/// creation or change has its definition checked first; `EXPLAIN` of the syntax
/// or the tree of a statement is a plan of the text it carries, any other
/// `EXPLAIN` binds the explained statement first; a query is bound as a
/// query; all else goes to the binder of its kind.
pub fn bind_statement(stmt: &Statement) -> (res: BindStep)
    ensures
        rewrite_of(*stmt) matches Some((query, kind)) ==> res matches BindStep::Rewrite {
            query: q,
            kind: k,
        } && q@ == query && k == kind,
        *stmt matches Statement::Query { ignore_result } ==> res == (BindStep::BindQuery {
            ignore_result,
        }),
        *stmt matches Statement::Explain { kind, .. } ==> match kind {
            ExplainKind::Ast(s) => res == BindStep::Plan(Plan::ExplainAst { formatted_string: s }),
            ExplainKind::Syntax(s) => res == BindStep::Plan(
                Plan::ExplainSyntax { formatted_sql: s },
            ),
            _ => res == BindStep::Explain,
        },
        *stmt matches Statement::UseDatabase { database } ==> res == BindStep::Plan(
            Plan::UseDatabase { database },
        ),
        *stmt matches Statement::DropUser { if_exists, user } ==> res == BindStep::Plan(
            Plan::DropUser { if_exists, user },
        ),
        *stmt matches Statement::ShowRoles ==> res == BindStep::Plan(Plan::ShowRoles),
        *stmt matches Statement::CreateRole { if_not_exists, role_name } ==> res == BindStep::Plan(
            Plan::CreateRole { if_not_exists, role_name },
        ),
        *stmt matches Statement::DropRole { if_exists, role_name } ==> res == BindStep::Plan(
            Plan::DropRole { if_exists, role_name },
        ),
        *stmt matches Statement::DropStage { stage_name, if_exists } ==> res == BindStep::Plan(
            Plan::DropStage { if_exists, name: stage_name },
        ),
        *stmt matches Statement::ShowGrants { principal } ==> res == BindStep::Plan(
            Plan::ShowGrants { principal },
        ),
        *stmt matches Statement::DropUDF { if_exists, udf_name } ==> res == BindStep::Plan(
            Plan::DropUDF { if_exists, name: udf_name },
        ),
        *stmt matches Statement::Call { name, args } ==> res matches BindStep::Plan(
            Plan::Call { name: n, args: a },
        ) && n == name && a@ == args@,
        *stmt is CreateUDF ==> res == BindStep::ValidateUdf,
        *stmt is AlterUDF ==> res == BindStep::ValidateUdf,
        *stmt is Other ==> res == BindStep::Delegate,
{
    match stmt {
        Statement::Query { ignore_result } => BindStep::BindQuery { ignore_result: *ignore_result },
        Statement::Explain { kind, .. } => match kind {
            ExplainKind::Ast(formatted_stmt) => BindStep::Plan(
                Plan::ExplainAst { formatted_string: formatted_stmt.clone() },
            ),
            ExplainKind::Syntax(formatted_sql) => BindStep::Plan(
                Plan::ExplainSyntax { formatted_sql: formatted_sql.clone() },
            ),
            _ => BindStep::Explain,
        },
        Statement::ShowMetrics => BindStep::Rewrite {
            query: String::from_str("SELECT metric, kind, labels, value FROM system.metrics"),
            kind: RewriteKind::ShowMetrics,
        },
        Statement::ShowProcessList => BindStep::Rewrite {
            query: String::from_str("SELECT * FROM system.processes"),
            kind: RewriteKind::ShowProcessList,
        },
        Statement::ShowEngines => BindStep::Rewrite {
            query: String::from_str(
                "SELECT \"Engine\", \"Comment\" FROM system.engines ORDER BY \"Engine\" ASC",
            ),
            kind: RewriteKind::ShowEngines,
        },
        Statement::UseDatabase { database } => BindStep::Plan(
            Plan::UseDatabase { database: database.clone() },
        ),
        Statement::DropUser { if_exists, user } => BindStep::Plan(
            Plan::DropUser { if_exists: *if_exists, user: copy_user(user) },
        ),
        Statement::ShowUsers => BindStep::Rewrite {
            query: String::from_str(
                "SELECT name, hostname, auth_type, auth_string FROM system.users ORDER BY name",
            ),
            kind: RewriteKind::ShowUsers,
        },
        Statement::ShowRoles => BindStep::Plan(Plan::ShowRoles),
        Statement::CreateRole { if_not_exists, role_name } => BindStep::Plan(
            Plan::CreateRole { if_not_exists: *if_not_exists, role_name: role_name.clone() },
        ),
        Statement::DropRole { if_exists, role_name } => BindStep::Plan(
            Plan::DropRole { if_exists: *if_exists, role_name: role_name.clone() },
        ),
        Statement::ShowStages => BindStep::Rewrite {
            query: String::from_str(
                "SELECT name, stage_type, number_of_files, creator, comment FROM system.stages ORDER BY name",
            ),
            kind: RewriteKind::ShowStages,
        },
        Statement::DescribeStage { stage_name } => {
            let mut query = String::from_str("SELECT * FROM system.stages WHERE name = '");
            query.append(stage_name.as_str());
            query.append("'");
            BindStep::Rewrite { query, kind: RewriteKind::DescribeStage }
        },
        Statement::DropStage { stage_name, if_exists } => BindStep::Plan(
            Plan::DropStage { if_exists: *if_exists, name: stage_name.clone() },
        ),
        Statement::ShowGrants { principal } => BindStep::Plan(
            Plan::ShowGrants { principal: copy_principal(principal) },
        ),
        Statement::DropUDF { if_exists, udf_name } => BindStep::Plan(
            Plan::DropUDF { if_exists: *if_exists, name: udf_name.clone() },
        ),
        Statement::Call { name, args } => BindStep::Plan(
            Plan::Call { name: name.clone(), args: copy_strings(args) },
        ),
        Statement::CreateUDF { .. } => BindStep::ValidateUdf,
        Statement::AlterUDF { .. } => BindStep::ValidateUdf,
        Statement::Other(_) => BindStep::Delegate,
    }
}

/// The description of a function as its plan holds it: the one given, or
/// an empty one.
pub open spec fn description_of(given: Option<String>, held: String) -> bool {
    match given {
        Some(d) => held == d,
        None => held@ == Seq::<char>::empty(),
    }
}

fn udf(
    udf_name: String,
    parameters: Vec<String>,
    definition: String,
    description: Option<String>,
) -> (res: UserDefinedFunction)
    ensures
        res.name == udf_name,
        res.parameters == parameters,
        res.definition == definition,
        description_of(description, res.description),
{
    let description = match description {
        Some(d) => d,
        None => String::new(),
    };
    UserDefinedFunction { name: udf_name, parameters, definition, description }
}

/// The plan that creates a function whose definition passed its check.
pub fn create_udf_plan(
    if_not_exists: bool,
    udf_name: String,
    parameters: Vec<String>,
    definition: String,
    description: Option<String>,
) -> (res: Plan)
    ensures
        res matches Plan::CreateUDF { if_not_exists: i, udf } && i == if_not_exists && udf.name
            == udf_name && udf.parameters == parameters && udf.definition == definition
            && description_of(description, udf.description),
{
    Plan::CreateUDF { if_not_exists, udf: udf(udf_name, parameters, definition, description) }
}

/// The plan that alters a function whose definition passed its check.
pub fn alter_udf_plan(
    udf_name: String,
    parameters: Vec<String>,
    definition: String,
    description: Option<String>,
) -> (res: Plan)
    ensures
        res matches Plan::AlterUDF { udf } && udf.name == udf_name && udf.parameters == parameters
            && udf.definition == definition && description_of(description, udf.description),
{
    Plan::AlterUDF { udf: udf(udf_name, parameters, definition, description) }
}

/// A query plan for a bound query.
pub fn query_plan(s_expr: SExpr, ignore_result: bool) -> (res: Plan)
    ensures
        res == (Plan::Query { s_expr: Box::new(s_expr), rewrite_kind: None, ignore_result }),
{
    Plan::Query { s_expr: Box::new(s_expr), rewrite_kind: None, ignore_result }
}

/// The plan of an explained statement, explained.
pub fn explain_plan(kind: ExplainKind, plan: Plan) -> (res: Plan)
    ensures
        res == (Plan::Explain { kind, plan: Box::new(plan) }),
{
    Plan::Explain { kind, plan: Box::new(plan) }
}

/// Marks the plan of a rewritten statement with the kind of the rewrite:
/// a query plan takes the kind, any other plan stays as it is.
pub fn bind_rewrite_to_query(plan: Plan, rewrite_kind_r: RewriteKind) -> (res: Plan)
    ensures
        plan matches Plan::Query { s_expr, ignore_result, .. } ==> res == (Plan::Query {
            s_expr,
            rewrite_kind: Some(rewrite_kind_r),
            ignore_result,
        }),
        !(plan is Query) ==> res == plan,
{
    let mut plan = plan;
    if let Plan::Query { rewrite_kind, .. } = &mut plan {
        *rewrite_kind = Some(rewrite_kind_r);
    }
    plan
}

} // verus!

verus! {

/// The state of binding that this module keeps: the metadata of the query
/// being bound.
#[derive(Debug)]
pub struct Binder {
    pub metadata: Metadata,
}

impl Binder {
    pub fn new(metadata: Metadata) -> (res: Binder)
        ensures
            res.metadata == metadata,
    {
        Binder { metadata }
    }

    /// A binding of a new column that the query derives: the column is
    /// added to the metadata under `column_name`, and the binding names it
    /// by its index.
    pub fn create_column_binding(
        &mut self,
        database_name: Option<String>,
        table_name: Option<String>,
        column_name: String,
        data_type: DataType,
    ) -> (res: ColumnBinding)
        requires
            old(self).metadata.columns@.len() < usize::MAX,
        ensures
            res.index == old(self).metadata.columns@.len(),
            final(self).metadata.tables == old(self).metadata.tables,
            final(self).metadata.columns@ == old(self).metadata.columns@.push(
                ColumnEntry::DerivedColumn { column_index: res.index, alias: column_name, data_type },
            ),
            column_entry_name(final(self).metadata.columns@[res.index as int]) == res.column_name@,
            res.database_name == database_name,
            res.table_name == table_name,
            res.column_name == column_name,
            *res.data_type == data_type,
            res.visibility == Visibility::Visible,
    {
        let copied_type = DataType { name: data_type.name.clone(), sql_name: data_type.sql_name.clone() };
        let index: usize = self.metadata.add_derived_column(column_name.clone(), copied_type);
        ColumnBinding {
            database_name,
            table_name,
            column_name,
            index,
            data_type: Box::new(data_type),
            visibility: Visibility::Visible,
        }
    }
}

} // verus!
