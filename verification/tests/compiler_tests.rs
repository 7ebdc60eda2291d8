use db2erd::ast::{ColumnAst, ColumnOptionAst, StatementAst, TableConstraintAst};
use db2erd::parse::{compile_query, parse_query, sql_to_d2, QueryAst};
use db2erd::schema::{
    ast_as_d2_spec, classify_option, normalize_column, table_relationship, Constraint,
    ForeignKeyInfo, ParentTable, ParsedTable, ReferencedTable, RelationshipIndex,
};

#[test]
fn classifier_is_total() {
    assert_eq!(classify_option(ColumnOptionAst::Null), Constraint::Null);
    assert_eq!(classify_option(ColumnOptionAst::NotNull), Constraint::NotNull);
    assert_eq!(
        classify_option(ColumnOptionAst::Unique { is_primary: true }),
        Constraint::PrimaryKey
    );
    assert_eq!(
        classify_option(ColumnOptionAst::Unique { is_primary: false }),
        Constraint::Unique
    );
    assert_eq!(classify_option(ColumnOptionAst::ForeignKey), Constraint::ForeignKey);
    assert_eq!(classify_option(ColumnOptionAst::Other), Constraint::Undefined);
    assert_eq!(Constraint::Undefined.to_text(), "");
}

#[test]
fn constraint_tokens() {
    assert_eq!(Constraint::Null.to_text(), "NULL");
    assert_eq!(Constraint::NotNull.to_text(), "NOT NULL");
    assert_eq!(Constraint::PrimaryKey.to_text(), "PK");
    assert_eq!(Constraint::ForeignKey.to_text(), "FK");
    assert_eq!(Constraint::Unique.to_text(), "UNIQUE");
}

#[test]
fn scenario_users_table() {
    let r = compile_query("CREATE TABLE users (id INT PRIMARY KEY, name VARCHAR(255) NOT NULL);")
        .expect("valid SQL");
    assert_eq!(r.len(), 1);
    match &r[0] {
        ParsedTable::D2Table(t) => {
            assert_eq!(t.table_name, "users");
            assert_eq!(t.columns.len(), 2);
            assert_eq!(t.columns[0].name, "id");
            assert_eq!(t.columns[0].data_type, "INT");
            assert_eq!(t.columns[0].constraint, vec![Constraint::PrimaryKey]);
            assert_eq!(t.columns[1].name, "name");
            assert_eq!(t.columns[1].data_type, "VARCHAR(255)");
            assert_eq!(t.columns[1].constraint, vec![Constraint::NotNull]);
            assert_eq!(t.relationships.entries.len(), 0);
        }
        other => panic!("expected a table, got {:?}", other),
    }
}

#[test]
fn scenario_users_table_render() {
    let r = compile_query("CREATE TABLE users (id INT PRIMARY KEY, name VARCHAR(255) NOT NULL);")
        .expect("valid SQL");
    let text = r[0].to_text();
    assert_eq!(
        text,
        "users: {\n\tshape: sql_table\n\tid: INT {constraint: PK}\n\tname: VARCHAR(255) {constraint: NOT NULL}\n}\n"
    );
}

#[test]
fn scenario_foreign_key() {
    let r = compile_query(
        "CREATE TABLE orders (user_id INT, FOREIGN KEY (user_id) REFERENCES users(id));",
    )
    .expect("valid SQL");
    assert_eq!(r.len(), 1);
    match &r[0] {
        ParsedTable::D2Table(t) => {
            assert_eq!(t.relationships.entries.len(), 1);
            let entry = &t.relationships.entries[0];
            assert_eq!(
                entry.key,
                ParentTable { table: "orders".to_string(), column: "user_id".to_string() }
            );
            assert_eq!(
                entry.target,
                ReferencedTable {
                    foreign_table: "users".to_string(),
                    referred_column: "id".to_string()
                }
            );
        }
        other => panic!("expected a table, got {:?}", other),
    }
}

#[test]
fn scenario_foreign_key_edge_rendering() {
    let text =
        sql_to_d2("CREATE TABLE orders (user_id INT, FOREIGN KEY (user_id) REFERENCES users(id));");
    assert_eq!(
        text,
        "orders: {\n\tshape: sql_table\n\tuser_id: INT\n}\norders.user_id -> users.id\n"
    );
}

#[test]
fn scenario_unsupported_statement() {
    let r = compile_query("SELECT * FROM users;").expect("valid SQL");
    assert_eq!(r.len(), 1);
    assert_eq!(r[0], ParsedTable::NotSupported);
    assert_eq!(
        r[0].to_text(),
        "Unsupported SQL statement. Only Created Table statement is supported."
    );
}

#[test]
fn scenario_invalid_sql() {
    let r = compile_query("not valid sql !!!");
    assert_eq!(r, Err("Invalid SQL statement".to_string()));
    match parse_query("not valid sql !!!") {
        QueryAst::InvalidSQL(m) => assert_eq!(m, "Invalid SQL statement"),
        other => panic!("expected a parse failure, got {:?}", other),
    }
    assert_eq!(sql_to_d2("not valid sql !!!"), "Invalid SQL statement");
}

#[test]
fn scenario_empty_input() {
    let r = compile_query("").expect("empty text is a successful parse");
    assert_eq!(r.len(), 0);
    assert_eq!(sql_to_d2(""), "");
    match parse_query("") {
        QueryAst::Parsed(stmts) => assert_eq!(stmts.len(), 0),
        other => panic!("expected an empty parse, got {:?}", other),
    }
}

#[test]
fn zero_column_table_block() {
    let stmt = StatementAst::CreateTable {
        name: vec!["t".to_string()],
        columns: vec![],
        constraints: vec![],
    };
    let t = ast_as_d2_spec(stmt);
    assert_eq!(t.to_text(), "t: {\n\tshape: sql_table\n}\n");
}

#[test]
fn composite_key_truncates_to_shorter_list() {
    let r = compile_query("CREATE TABLE a (x INT, y INT, FOREIGN KEY (x, y) REFERENCES b (z));")
        .expect("valid SQL");
    match &r[0] {
        ParsedTable::D2Table(t) => {
            assert_eq!(t.relationships.entries.len(), 1);
            let entry = &t.relationships.entries[0];
            assert_eq!(entry.key.column, "x");
            assert_eq!(entry.target.foreign_table, "b");
            assert_eq!(entry.target.referred_column, "z");
        }
        other => panic!("expected a table, got {:?}", other),
    }
}

#[test]
fn composite_key_truncation_direct() {
    let idx = table_relationship(
        "a".to_string(),
        TableConstraintAst::ForeignKey {
            columns: vec!["x".to_string(), "y".to_string()],
            foreign_table: vec!["b".to_string()],
            referred_columns: vec!["z".to_string()],
        },
    );
    assert_eq!(idx.entries.len(), 1);
    assert_eq!(idx.entries[0].key.column, "x");
}

#[test]
fn compiling_twice_is_idempotent() {
    let sql = "CREATE TABLE users (id INT PRIMARY KEY); \
               CREATE TABLE orders (user_id INT, FOREIGN KEY (user_id) REFERENCES users(id));";
    let r1 = compile_query(sql);
    let r2 = compile_query(sql);
    assert_eq!(r1, r2);
    assert_eq!(sql_to_d2(sql), sql_to_d2(sql));
}

#[test]
fn later_constraint_overwrites_same_owning_column() {
    let r = compile_query(
        "CREATE TABLE t (x INT, FOREIGN KEY (x) REFERENCES a (p), FOREIGN KEY (x) REFERENCES b (q));",
    )
    .expect("valid SQL");
    match &r[0] {
        ParsedTable::D2Table(t) => {
            assert_eq!(t.relationships.entries.len(), 1);
            assert_eq!(t.relationships.entries[0].target.foreign_table, "b");
            assert_eq!(t.relationships.entries[0].target.referred_column, "q");
        }
        other => panic!("expected a table, got {:?}", other),
    }
}

#[test]
fn insert_overwrites_by_key() {
    let mut idx = RelationshipIndex::new();
    let k1 = ParentTable { table: "t".to_string(), column: "a".to_string() };
    let k2 = ParentTable { table: "t".to_string(), column: "b".to_string() };
    let t1 = ReferencedTable { foreign_table: "x".to_string(), referred_column: "p".to_string() };
    let t2 = ReferencedTable { foreign_table: "y".to_string(), referred_column: "q".to_string() };
    let t3 = ReferencedTable { foreign_table: "z".to_string(), referred_column: "r".to_string() };
    idx.insert(k1.clone(), t1);
    idx.insert(k1.clone(), t2.clone());
    idx.insert(k2, t3);
    assert_eq!(idx.len(), 2);
    assert_eq!(idx.entries[0].key, k1);
    assert_eq!(idx.entries[0].target, t2);
}

#[test]
fn undefined_constraints_render_no_suffix() {
    let r = compile_query("CREATE TABLE t (x INT DEFAULT 5);").expect("valid SQL");
    match &r[0] {
        ParsedTable::D2Table(t) => {
            assert_eq!(t.columns[0].constraint, vec![Constraint::Undefined]);
            assert_eq!(t.to_text(), "t: {\n\tshape: sql_table\n\tx: INT\n}\n");
        }
        other => panic!("expected a table, got {:?}", other),
    }
}

#[test]
fn normalize_column_keeps_option_order() {
    let col = ColumnAst {
        name: "x".to_string(),
        data_type: "INT".to_string(),
        options: vec![ColumnOptionAst::NotNull, ColumnOptionAst::Other, ColumnOptionAst::Null],
    };
    let d = normalize_column(&col);
    assert_eq!(d.name, "x");
    assert_eq!(d.data_type, "INT");
    assert_eq!(
        d.constraint,
        vec![Constraint::NotNull, Constraint::Undefined, Constraint::Null]
    );
}

#[test]
fn parse_query_projects_create_table() {
    match parse_query("CREATE TABLE users (id INT);") {
        QueryAst::Parsed(stmts) => {
            assert_eq!(stmts.len(), 1);
            let expected = StatementAst::CreateTable {
                name: vec!["users".to_string()],
                columns: vec![ColumnAst {
                    name: "id".to_string(),
                    data_type: "INT".to_string(),
                    options: vec![],
                }],
                constraints: vec![],
            };
            assert_eq!(stmts[0], expected);
        }
        other => panic!("expected a parse, got {:?}", other),
    }
}

#[test]
fn multiple_statements_keep_order() {
    let text = sql_to_d2("CREATE TABLE a (x INT); SELECT 1;");
    assert_eq!(
        text,
        "a: {\n\tshape: sql_table\n\tx: INT\n}\n\nUnsupported SQL statement. Only Created Table statement is supported."
    );
}

#[test]
fn foreign_key_info_holds_reference_text() {
    let info = ForeignKeyInfo {
        foreign_table: "users".to_string(),
        referred_columns: "id".to_string(),
    };
    assert_eq!(info, info.clone());
    assert_eq!(info.foreign_table, "users");
}

#[test]
fn qualified_name_keeps_first_segment() {
    let r = compile_query("CREATE TABLE s.t (x INT);").expect("valid SQL");
    match &r[0] {
        ParsedTable::D2Table(t) => assert_eq!(t.table_name, "s"),
        other => panic!("expected a table, got {:?}", other),
    }
}

#[test]
fn null_option_classifies_and_renders() {
    let r = compile_query("CREATE TABLE t (x INT NULL, y INT UNIQUE);").expect("valid SQL");
    match &r[0] {
        ParsedTable::D2Table(t) => {
            assert_eq!(t.columns[0].constraint, vec![Constraint::Null]);
            assert_eq!(t.columns[1].constraint, vec![Constraint::Unique]);
            assert_eq!(
                t.to_text(),
                "t: {\n\tshape: sql_table\n\tx: INT {constraint: NULL}\n\ty: INT {constraint: UNIQUE}\n}\n"
            );
        }
        other => panic!("expected a table, got {:?}", other),
    }
}
