use query_format::binder::{
    alter_udf_plan, bind_rewrite_to_query, bind_statement, create_udf_plan, explain_plan, query_plan,
    BindStep, Binder, ExplainKind, Plan, PrincipalIdentity, RewriteKind, Statement, UserIdentity,
};
use query_format::plans::{ColumnEntry, DataType, DummyTableScan, Metadata, RelOperator, SExpr, Visibility};

fn rewrite(stmt: Statement) -> (String, RewriteKind) {
    match bind_statement(&stmt) {
        BindStep::Rewrite { query, kind } => (query, kind),
        other => panic!("not a rewrite: {:?}", other),
    }
}

#[test]
fn show_statements_are_rewritten_to_system_queries() {
    assert_eq!(
        rewrite(Statement::ShowMetrics),
        ("SELECT metric, kind, labels, value FROM system.metrics".to_string(), RewriteKind::ShowMetrics)
    );
    assert_eq!(
        rewrite(Statement::ShowProcessList),
        ("SELECT * FROM system.processes".to_string(), RewriteKind::ShowProcessList)
    );
    assert_eq!(
        rewrite(Statement::ShowEngines),
        (
            "SELECT \"Engine\", \"Comment\" FROM system.engines ORDER BY \"Engine\" ASC".to_string(),
            RewriteKind::ShowEngines
        )
    );
    assert_eq!(
        rewrite(Statement::ShowUsers),
        (
            "SELECT name, hostname, auth_type, auth_string FROM system.users ORDER BY name".to_string(),
            RewriteKind::ShowUsers
        )
    );
    assert_eq!(
        rewrite(Statement::ShowStages),
        (
            "SELECT name, stage_type, number_of_files, creator, comment FROM system.stages ORDER BY name"
                .to_string(),
            RewriteKind::ShowStages
        )
    );
    assert_eq!(
        rewrite(Statement::DescribeStage { stage_name: "my_stage".to_string() }),
        ("SELECT * FROM system.stages WHERE name = 'my_stage'".to_string(), RewriteKind::DescribeStage)
    );
}

#[test]
fn simple_statements_become_plans() {
    match bind_statement(&Statement::UseDatabase { database: "db1".to_string() }) {
        BindStep::Plan(Plan::UseDatabase { database }) => assert_eq!(database, "db1"),
        other => panic!("{:?}", other),
    }
    let user = UserIdentity { username: "u".to_string(), hostname: "%".to_string() };
    match bind_statement(&Statement::DropUser { if_exists: true, user }) {
        BindStep::Plan(Plan::DropUser { if_exists, user }) => {
            assert!(if_exists);
            assert_eq!(user.username, "u");
            assert_eq!(user.hostname, "%");
        }
        other => panic!("{:?}", other),
    }
    assert!(matches!(bind_statement(&Statement::ShowRoles), BindStep::Plan(Plan::ShowRoles)));
    match bind_statement(&Statement::CreateRole { if_not_exists: false, role_name: "r".to_string() }) {
        BindStep::Plan(Plan::CreateRole { if_not_exists, role_name }) => {
            assert!(!if_not_exists);
            assert_eq!(role_name, "r");
        }
        other => panic!("{:?}", other),
    }
    match bind_statement(&Statement::DropRole { if_exists: true, role_name: "r".to_string() }) {
        BindStep::Plan(Plan::DropRole { if_exists, role_name }) => {
            assert!(if_exists);
            assert_eq!(role_name, "r");
        }
        other => panic!("{:?}", other),
    }
    match bind_statement(&Statement::DropStage { stage_name: "s".to_string(), if_exists: false }) {
        BindStep::Plan(Plan::DropStage { if_exists, name }) => {
            assert!(!if_exists);
            assert_eq!(name, "s");
        }
        other => panic!("{:?}", other),
    }
    match bind_statement(&Statement::ShowGrants { principal: Some(PrincipalIdentity::Role("admin".to_string())) }) {
        BindStep::Plan(Plan::ShowGrants { principal: Some(PrincipalIdentity::Role(r)) }) => assert_eq!(r, "admin"),
        other => panic!("{:?}", other),
    }
    match bind_statement(&Statement::DropUDF { if_exists: true, udf_name: "f".to_string() }) {
        BindStep::Plan(Plan::DropUDF { if_exists, name }) => {
            assert!(if_exists);
            assert_eq!(name, "f");
        }
        other => panic!("{:?}", other),
    }
    match bind_statement(&Statement::Call { name: "sys$f".to_string(), args: vec!["a".to_string(), "b".to_string()] }) {
        BindStep::Plan(Plan::Call { name, args }) => {
            assert_eq!(name, "sys$f");
            assert_eq!(args, vec!["a".to_string(), "b".to_string()]);
        }
        other => panic!("{:?}", other),
    }
}

#[test]
fn explain_and_queries() {
    let inner = Box::new(Statement::ShowRoles);
    match bind_statement(&Statement::Explain { query: inner, kind: ExplainKind::Ast("tree".to_string()) }) {
        BindStep::Plan(Plan::ExplainAst { formatted_string }) => assert_eq!(formatted_string, "tree"),
        other => panic!("{:?}", other),
    }
    let inner = Box::new(Statement::ShowRoles);
    match bind_statement(&Statement::Explain { query: inner, kind: ExplainKind::Syntax("SHOW ROLES".to_string()) }) {
        BindStep::Plan(Plan::ExplainSyntax { formatted_sql }) => assert_eq!(formatted_sql, "SHOW ROLES"),
        other => panic!("{:?}", other),
    }
    let inner = Box::new(Statement::ShowRoles);
    assert!(matches!(bind_statement(&Statement::Explain { query: inner, kind: ExplainKind::Pipeline }), BindStep::Explain));
    assert!(matches!(
        bind_statement(&Statement::Query { ignore_result: true }),
        BindStep::BindQuery { ignore_result: true }
    ));
    assert!(matches!(bind_statement(&Statement::Other("CreateTable".to_string())), BindStep::Delegate));
    match explain_plan(ExplainKind::Raw, Plan::ShowRoles) {
        Plan::Explain { kind: ExplainKind::Raw, plan } => assert!(matches!(*plan, Plan::ShowRoles)),
        other => panic!("{:?}", other),
    }
}

#[test]
fn rewritten_query_plans_carry_their_kind() {
    let q = query_plan(SExpr::create_leaf(RelOperator::DummyTableScan(DummyTableScan {})), false);
    match bind_rewrite_to_query(q, RewriteKind::ShowUsers) {
        Plan::Query { rewrite_kind, ignore_result, .. } => {
            assert_eq!(rewrite_kind, Some(RewriteKind::ShowUsers));
            assert!(!ignore_result);
        }
        other => panic!("{:?}", other),
    }
    assert!(matches!(bind_rewrite_to_query(Plan::ShowRoles, RewriteKind::ShowStages), Plan::ShowRoles));
}

#[test]
fn column_bindings_name_new_derived_columns() {
    let int = DataType { name: "Int64".to_string(), sql_name: "BIGINT".to_string() };
    let mut binder = Binder::new(Metadata { tables: vec![], columns: vec![] });
    let first = binder.create_column_binding(None, Some("t".to_string()), "x".to_string(), int.clone());
    let second = binder.create_column_binding(Some("db".to_string()), None, "y".to_string(), int.clone());
    assert_eq!(first.index, 0);
    assert_eq!(second.index, 1);
    assert_eq!(first.table_name.as_deref(), Some("t"));
    assert_eq!(second.database_name.as_deref(), Some("db"));
    assert_eq!(first.visibility, Visibility::Visible);
    assert_eq!(binder.metadata.column_name(1), "y");
    match binder.metadata.column(0) {
        ColumnEntry::DerivedColumn { column_index, alias, .. } => {
            assert_eq!(*column_index, 0);
            assert_eq!(alias, "x");
        }
        other => panic!("{:?}", other),
    }
}

#[test]
fn function_definitions_are_checked_then_planned() {
    let create = Statement::CreateUDF {
        if_not_exists: true,
        udf_name: "isnotempty".to_string(),
        parameters: vec!["p".to_string()],
        definition: "not(is_null(p))".to_string(),
        description: None,
    };
    assert!(matches!(bind_statement(&create), BindStep::ValidateUdf));
    let alter = Statement::AlterUDF {
        udf_name: "isnotempty".to_string(),
        parameters: vec![],
        definition: "1".to_string(),
        description: Some("one".to_string()),
    };
    assert!(matches!(bind_statement(&alter), BindStep::ValidateUdf));
    match create_udf_plan(true, "isnotempty".to_string(), vec!["p".to_string()], "not(is_null(p))".to_string(), None) {
        Plan::CreateUDF { if_not_exists, udf } => {
            assert!(if_not_exists);
            assert_eq!(udf.name, "isnotempty");
            assert_eq!(udf.parameters, vec!["p".to_string()]);
            assert_eq!(udf.definition, "not(is_null(p))");
            assert_eq!(udf.description, "");
        }
        other => panic!("{:?}", other),
    }
    match alter_udf_plan("f".to_string(), vec![], "1".to_string(), Some("one".to_string())) {
        Plan::AlterUDF { udf } => {
            assert_eq!(udf.name, "f");
            assert!(udf.parameters.is_empty());
            assert_eq!(udf.definition, "1");
            assert_eq!(udf.description, "one");
        }
        other => panic!("{:?}", other),
    }
}
