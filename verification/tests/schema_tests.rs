use sqlite_schema::commands::{
    complete_slash_command_argument, known_command, run_slash_command, schema_command,
};
use sqlite_schema::render::render;
use sqlite_schema::schema::{
    collect_columns, schema, tag_columns, ColumnInfo, SchemaError, SqliteDatabaseInfo, TableInfo,
};

/// Create (or reset) a database file at `path` and run `setup_sql` on it.
fn fresh_db(path: &str, setup_sql: &str) {
    let conn = rusqlite::Connection::open(path).unwrap();
    conn.execute_batch(setup_sql).unwrap();
}

fn record(table: &str, column: &str, declared: &str) -> TableInfo {
    TableInfo {
        table_name: table.to_string(),
        column_name: column.to_string(),
        declared_type: declared.to_string(),
    }
}

#[test]
fn users_table_two_records() {
    let path = "/tmp/sqlite_schema_it_users.db";
    fresh_db(
        path,
        "DROP TABLE IF EXISTS users; CREATE TABLE users(id INTEGER, name TEXT);",
    );
    let info = schema(path).unwrap();
    assert_eq!(info.name, path);
    assert_eq!(
        info.tables,
        vec![
            record("users", "id", "INTEGER"),
            record("users", "name", "TEXT"),
        ]
    );
    let text = render(&info);
    assert_eq!(text, "Table: users Type: INTEGER\nTable: users Type: TEXT\n");
}

#[test]
fn two_tables_in_catalog_then_column_order() {
    let path = "/tmp/sqlite_schema_it_two_tables.db";
    fresh_db(
        path,
        "DROP TABLE IF EXISTS a; DROP TABLE IF EXISTS b; \
         CREATE TABLE a(x INT); CREATE TABLE b(y TEXT, z BLOB);",
    );
    let info = schema(path).unwrap();
    assert_eq!(
        info.tables,
        vec![
            record("a", "x", "INT"),
            record("b", "y", "TEXT"),
            record("b", "z", "BLOB"),
        ]
    );
}

#[test]
fn empty_database_no_records() {
    let path = "/tmp/sqlite_schema_it_empty.db";
    fresh_db(path, "CREATE TABLE IF NOT EXISTS gone(a); DROP TABLE gone;");
    let info = schema(path).unwrap();
    assert_eq!(info.name, path);
    assert_eq!(info.tables, Vec::<TableInfo>::new());
    assert_eq!(render(&info), "");
}

#[test]
fn nonexistent_path_is_connection_error() {
    let r = schema("/tmp/no/such/dir/sqlite_schema_missing.db");
    assert!(matches!(r, Err(SchemaError::ConnectionError(_))));
}

#[test]
fn missing_argument_fails_before_any_access() {
    let args: Vec<String> = Vec::new();
    let r = schema_command(&args);
    assert_eq!(r, Err(SchemaError::MissingArgument));
    let r2 = run_slash_command("schema", &args);
    assert_eq!(r2, Err("need path to db".to_string()));
}

#[test]
fn introspect_twice_is_identical() {
    let path = "/tmp/sqlite_schema_it_idempotent.db";
    fresh_db(
        path,
        "DROP TABLE IF EXISTS t; CREATE TABLE t(a INTEGER, b TEXT, c);",
    );
    let first = schema(path);
    let second = schema(path);
    assert_eq!(first, second);
    assert!(first.is_ok());
}

#[test]
fn untyped_column_has_empty_declared_type() {
    let path = "/tmp/sqlite_schema_it_untyped.db";
    fresh_db(path, "DROP TABLE IF EXISTS u; CREATE TABLE u(v);");
    let info = schema(path).unwrap();
    assert_eq!(info.tables, vec![record("u", "v", "")]);
    assert_eq!(render(&info), "Table: u Type: \n");
}

#[test]
fn unknown_command_is_rejected() {
    let args = vec!["/tmp/sqlite_schema_whatever.db".to_string()];
    let r = run_slash_command("other", &args);
    assert_eq!(r, Err("unknown slash command: \"other\"".to_string()));
    assert!(!known_command("other"));
    assert!(known_command("schema"));
}

#[test]
fn run_command_renders_schema() {
    let path = "/tmp/sqlite_schema_it_run.db";
    fresh_db(
        path,
        "DROP TABLE IF EXISTS users; CREATE TABLE users(id INTEGER, name TEXT);",
    );
    let args = vec![path.to_string()];
    let r = run_slash_command("schema", &args);
    assert_eq!(
        r,
        Ok("Table: users Type: INTEGER\nTable: users Type: TEXT\n".to_string())
    );
}

#[test]
fn run_command_reports_failure_message() {
    let args = vec!["/tmp/no/such/dir/sqlite_schema_missing.db".to_string()];
    let r = run_slash_command("schema", &args);
    assert!(r.is_err());
}

#[test]
fn completion_known_and_unknown() {
    assert_eq!(complete_slash_command_argument("schema"), Ok(Vec::new()));
    assert_eq!(
        complete_slash_command_argument("nope"),
        Err("unknown slash command: \"nope\"".to_string())
    );
}

#[test]
fn error_messages() {
    assert_eq!(
        SchemaError::MissingArgument.message(),
        "need path to db".to_string()
    );
    assert_eq!(
        SchemaError::QueryError("boom".to_string()).message(),
        "boom".to_string()
    );
    assert_eq!(
        SchemaError::ConnectionError("nope".to_string()).message(),
        "nope".to_string()
    );
}

#[test]
fn collect_columns_tags_and_flattens() {
    let names = vec!["a".to_string(), "b".to_string()];
    let cols = vec![
        vec![ColumnInfo {
            name: "x".to_string(),
            declared_type: "INT".to_string(),
        }],
        vec![
            ColumnInfo {
                name: "y".to_string(),
                declared_type: "TEXT".to_string(),
            },
            ColumnInfo {
                name: "z".to_string(),
                declared_type: "BLOB".to_string(),
            },
        ],
    ];
    let r = collect_columns(&names, &cols);
    assert_eq!(
        r,
        vec![
            record("a", "x", "INT"),
            record("b", "y", "TEXT"),
            record("b", "z", "BLOB"),
        ]
    );
    let tagged = tag_columns(&names[1], &cols[1]);
    assert_eq!(
        tagged,
        vec![record("b", "y", "TEXT"), record("b", "z", "BLOB")]
    );
}

#[test]
fn rendering_of_built_info() {
    let info = SqliteDatabaseInfo {
        name: "somewhere.db".to_string(),
        tables: vec![record("t", "c", "REAL")],
    };
    assert_eq!(render(&info), "Table: t Type: REAL\n");
}

#[test]
fn unpreparable_table_query_is_query_error() {
    // A table whose name holds a double quote defeats the per-table
    // query's quoting, so preparing that query fails.
    let path = "/tmp/sqlite_schema_it_query_err.db";
    fresh_db(path, "CREATE TABLE IF NOT EXISTS \"a\"\"b\"(x INT);");
    let r = schema(path);
    assert!(matches!(r, Err(SchemaError::QueryError(_))));
}
