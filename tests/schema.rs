use runar_sqlite::ddl::{column_sql, create_index_sql, create_table_sql, initialization_statements, push_quoted};
use runar_sqlite::error::SqlError;
use runar_sqlite::schema::{
    ColumnConstraint, ColumnDefinition, DataType, DefaultValue, ForeignKey, ForeignKeyAction,
    IndexDefinition, Schema, TableDefinition,
};

fn column(name: &str, data_type: DataType) -> ColumnDefinition {
    ColumnDefinition { name: name.to_string(), data_type, constraints: vec![], default_value: None }
}

fn table(name: &str, columns: Vec<ColumnDefinition>) -> TableDefinition {
    TableDefinition {
        name: name.to_string(),
        columns,
        primary_key: vec![],
        foreign_keys: vec![],
        indexes: vec![],
    }
}

fn fk(column: &str, foreign_table: &str, foreign_column: &str) -> ForeignKey {
    ForeignKey {
        column: column.to_string(),
        foreign_table: foreign_table.to_string(),
        foreign_column: foreign_column.to_string(),
        on_delete: ForeignKeyAction::Cascade,
        on_update: ForeignKeyAction::NoAction,
    }
}

fn index(name: &str, columns: &[&str], unique: bool) -> IndexDefinition {
    IndexDefinition { name: name.to_string(), columns: columns.iter().map(|c| c.to_string()).collect(), unique }
}

fn blog_schema() -> Schema {
    let mut users = table("users", vec![column("id", DataType::Integer), column("email", DataType::Text)]);
    users.primary_key = vec!["id".to_string()];
    users.indexes = vec![index("users_email", &["email"], true)];
    let mut posts = table(
        "posts",
        vec![column("id", DataType::Integer), column("author", DataType::Integer), column("body", DataType::Text)],
    );
    posts.foreign_keys = vec![fk("author", "users", "id")];
    posts.indexes = vec![index("posts_author", &["author", "id"], false)];
    Schema::new().add_table(users).add_table(posts)
}

#[test]
fn sound_schema_validates() {
    assert_eq!(blog_schema().validate(), Ok(()));
    assert_eq!(Schema::new().validate(), Ok(()));
}

#[test]
fn foreign_key_to_missing_table_is_rejected() {
    let mut s = blog_schema();
    s.tables[1].foreign_keys[0].foreign_table = "people".to_string();
    assert_eq!(s.validate(), Err(SqlError::SchemaValidationError));
}

#[test]
fn foreign_key_to_missing_column_is_rejected() {
    let mut s = blog_schema();
    s.tables[1].foreign_keys[0].foreign_column = "uid".to_string();
    assert_eq!(s.validate(), Err(SqlError::SchemaValidationError));
}

#[test]
fn foreign_key_from_missing_local_column_is_rejected() {
    let mut s = blog_schema();
    s.tables[1].foreign_keys[0].column = "writer".to_string();
    assert_eq!(s.validate(), Err(SqlError::SchemaValidationError));
}

#[test]
fn duplicate_names_are_rejected() {
    let s = blog_schema().add_table(table("users", vec![]));
    assert_eq!(s.validate(), Err(SqlError::SchemaValidationError));
    let mut s = blog_schema();
    s.tables[0].columns.push(column("email", DataType::Blob));
    assert_eq!(s.validate(), Err(SqlError::SchemaValidationError));
    let mut s = blog_schema();
    s.tables[1].indexes.push(index("users_email", &["body"], false));
    assert_eq!(s.validate(), Err(SqlError::SchemaValidationError));
}

#[test]
fn unknown_primary_key_or_index_column_is_rejected() {
    let mut s = blog_schema();
    s.tables[0].primary_key = vec!["uid".to_string()];
    assert_eq!(s.validate(), Err(SqlError::SchemaValidationError));
    let mut s = blog_schema();
    s.tables[1].indexes[0].columns.push("title".to_string());
    assert_eq!(s.validate(), Err(SqlError::SchemaValidationError));
}

#[test]
fn table_ddl_text() {
    let s = blog_schema();
    assert_eq!(
        create_table_sql(&s.tables[0]),
        "CREATE TABLE IF NOT EXISTS users (id INTEGER, email TEXT, PRIMARY KEY (id))"
    );
    assert_eq!(
        create_table_sql(&s.tables[1]),
        "CREATE TABLE IF NOT EXISTS posts (id INTEGER, author INTEGER, body TEXT, \
         FOREIGN KEY (author) REFERENCES users (id) ON DELETE CASCADE ON UPDATE NO ACTION)"
    );
    assert_eq!(
        create_index_sql(&"users".to_string(), &s.tables[0].indexes[0]),
        "CREATE UNIQUE INDEX IF NOT EXISTS users_email ON users (email)"
    );
    assert_eq!(
        create_index_sql(&"posts".to_string(), &s.tables[1].indexes[0]),
        "CREATE INDEX IF NOT EXISTS posts_author ON posts (author, id)"
    );
}

#[test]
fn column_ddl_text() {
    let mut c = column("n", DataType::Integer);
    c.constraints = vec![ColumnConstraint::PrimaryKey, ColumnConstraint::NotNull, ColumnConstraint::Unique];
    c.default_value = Some(DefaultValue::Integer(-42));
    assert_eq!(column_sql(&c), "n INTEGER PRIMARY KEY NOT NULL UNIQUE DEFAULT -42");
    let mut c = column("t", DataType::Text);
    c.default_value = Some(DefaultValue::Text("it's".to_string()));
    assert_eq!(column_sql(&c), "t TEXT DEFAULT 'it''s'");
    let mut c = column("r", DataType::Real);
    c.default_value = Some(DefaultValue::Real { mantissa: 15, exponent: -1 });
    assert_eq!(column_sql(&c), "r REAL DEFAULT 15e-1");
    let mut c = column("b", DataType::Blob);
    c.default_value = Some(DefaultValue::Null);
    assert_eq!(column_sql(&c), "b BLOB DEFAULT NULL");
    let mut c = column("at", DataType::Text);
    c.default_value = Some(DefaultValue::CurrentTimestamp);
    assert_eq!(column_sql(&c), "at TEXT DEFAULT CURRENT_TIMESTAMP");
    let mut c = column("m", DataType::Integer);
    c.default_value = Some(DefaultValue::Integer(i64::MIN));
    assert_eq!(column_sql(&c), "m INTEGER DEFAULT -9223372036854775808");
}

#[test]
fn quoting_doubles_quotes() {
    let mut out = String::from("x=");
    push_quoted(&mut out, &"a'b''".to_string());
    assert_eq!(out, "x='a''b'''''");
}

#[test]
fn initialization_emits_tables_then_their_indexes() {
    let stmts = initialization_statements(&blog_schema()).unwrap();
    assert_eq!(stmts.len(), 4);
    assert!(stmts[0].starts_with("CREATE TABLE IF NOT EXISTS users"));
    assert!(stmts[1].starts_with("CREATE UNIQUE INDEX IF NOT EXISTS users_email"));
    assert!(stmts[2].starts_with("CREATE TABLE IF NOT EXISTS posts"));
    assert!(stmts[3].starts_with("CREATE INDEX IF NOT EXISTS posts_author"));
    assert_eq!(initialization_statements(&blog_schema()).unwrap(), stmts);
}

#[test]
fn initialization_of_invalid_schema_fails() {
    let mut s = blog_schema();
    s.tables[1].foreign_keys[0].foreign_table = "nobody".to_string();
    assert_eq!(initialization_statements(&s), Err(SqlError::SchemaValidationError));
}
