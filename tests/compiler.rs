use runar_sqlite::compiler::compile;
use runar_sqlite::error::SqlError;
use runar_sqlite::model::{
    CreateOperation, CrudOperation, DeleteOperation, Query, QueryOperator, ReadOperation, SqlQuery,
    UpdateOperation,
};
use runar_sqlite::schema::{ColumnConstraint, ColumnDefinition, DataType, Schema, TableDefinition};
use runar_sqlite::value::Value;

fn column(name: &str, data_type: DataType, constraints: Vec<ColumnConstraint>) -> ColumnDefinition {
    ColumnDefinition { name: name.to_string(), data_type, constraints, default_value: None }
}

fn users_schema() -> Schema {
    Schema::new().add_table(TableDefinition {
        name: "users".to_string(),
        columns: vec![
            column("id", DataType::Integer, vec![ColumnConstraint::PrimaryKey]),
            column("name", DataType::Text, vec![ColumnConstraint::NotNull]),
            column("email", DataType::Text, vec![ColumnConstraint::Unique]),
            column("age", DataType::Integer, vec![]),
        ],
        primary_key: vec![],
        foreign_keys: vec![],
        indexes: vec![],
    })
}

fn text(s: &str) -> Value {
    Value::Text(s.to_string())
}

fn entry(k: &str, v: Value) -> (String, Value) {
    (k.to_string(), v)
}

fn read(query: Query) -> ReadOperation {
    ReadOperation {
        table: "users".to_string(),
        query,
        fields: None,
        limit: None,
        offset: None,
        order_by: None,
    }
}

fn params(q: &SqlQuery) -> Vec<(String, Value)> {
    q.params.values.clone()
}

#[test]
fn create_binds_values_in_schema_column_order() {
    let op = CrudOperation::Create(CreateOperation {
        table: "users".to_string(),
        data: vec![
            entry("age", Value::Integer(30)),
            entry("email", text("john@example.com")),
            entry("name", text("John Doe")),
        ],
    });
    let q = compile(&op, &users_schema()).unwrap();
    assert_eq!(q.statement, "INSERT INTO users (name, email, age) VALUES (?, ?, ?)");
    assert_eq!(
        params(&q),
        vec![
            entry("name", text("John Doe")),
            entry("email", text("john@example.com")),
            entry("age", Value::Integer(30)),
        ]
    );
}

#[test]
fn create_with_no_fields_uses_default_values() {
    let op = CrudOperation::Create(CreateOperation { table: "users".to_string(), data: vec![] });
    let q = compile(&op, &users_schema()).unwrap();
    assert_eq!(q.statement, "INSERT INTO users DEFAULT VALUES");
    assert!(q.params.values.is_empty());
}

#[test]
fn later_entry_for_a_field_wins() {
    let op = CrudOperation::Create(CreateOperation {
        table: "users".to_string(),
        data: vec![entry("age", Value::Integer(1)), entry("age", Value::Integer(2))],
    });
    let q = compile(&op, &users_schema()).unwrap();
    assert_eq!(q.statement, "INSERT INTO users (age) VALUES (?)");
    assert_eq!(params(&q), vec![entry("age", Value::Integer(2))]);
}

#[test]
fn read_renders_where_order_limit_and_offset() {
    let mut r = read(Query::new().with_condition("email", QueryOperator::Equal(text("a@b.c"))));
    r.order_by = Some(vec![("age".to_string(), false), ("name".to_string(), true)]);
    r.limit = Some(10);
    r.offset = Some(5);
    let q = compile(&CrudOperation::Read(r), &users_schema()).unwrap();
    assert_eq!(
        q.statement,
        "SELECT * FROM users WHERE email = ? ORDER BY age DESC, name ASC LIMIT 10 OFFSET 5"
    );
    assert_eq!(params(&q), vec![entry("email", text("a@b.c"))]);
}

#[test]
fn read_offset_without_limit() {
    let mut r = read(Query::new());
    r.offset = Some(7);
    let q = compile(&CrudOperation::Read(r), &users_schema()).unwrap();
    assert_eq!(q.statement, "SELECT * FROM users LIMIT -1 OFFSET 7");
}

#[test]
fn read_projection_keeps_caller_order() {
    let mut r = read(Query::new());
    r.fields = Some(vec!["email".to_string(), "id".to_string()]);
    r.limit = Some(0);
    let q = compile(&CrudOperation::Read(r), &users_schema()).unwrap();
    assert_eq!(q.statement, "SELECT email, id FROM users LIMIT 0");
    let mut r = read(Query::new());
    r.fields = Some(vec![]);
    let q = compile(&CrudOperation::Read(r), &users_schema()).unwrap();
    assert_eq!(q.statement, "SELECT * FROM users");
}

#[test]
fn conditions_follow_schema_order_not_insertion_order() {
    let query = Query::new()
        .with_condition("age", QueryOperator::GreaterThanOrEqual(Value::Integer(18)))
        .with_condition("name", QueryOperator::Like("J%".to_string()))
        .with_condition("id", QueryOperator::NotEqual(Value::Integer(4)));
    let q = compile(&CrudOperation::Read(read(query)), &users_schema()).unwrap();
    assert_eq!(q.statement, "SELECT * FROM users WHERE id <> ? AND name LIKE ? AND age >= ?");
    assert_eq!(
        params(&q),
        vec![entry("id", Value::Integer(4)), entry("name", text("J%")), entry("age", Value::Integer(18))]
    );
}

#[test]
fn every_operator_renders() {
    let cases = vec![
        (QueryOperator::Equal(Value::Integer(1)), "age = ?"),
        (QueryOperator::NotEqual(Value::Integer(1)), "age <> ?"),
        (QueryOperator::GreaterThan(Value::Integer(1)), "age > ?"),
        (QueryOperator::GreaterThanOrEqual(Value::Integer(1)), "age >= ?"),
        (QueryOperator::LessThan(Value::Integer(1)), "age < ?"),
        (QueryOperator::LessThanOrEqual(Value::Integer(1)), "age <= ?"),
        (QueryOperator::Like("1".to_string()), "age LIKE ?"),
        (QueryOperator::In(vec![Value::Integer(1)]), "age IN (?)"),
    ];
    for (op, expected) in cases {
        let op = CrudOperation::Delete(DeleteOperation {
            table: "users".to_string(),
            query: Query::new().with_condition("age", op),
        });
        let q = compile(&op, &users_schema()).unwrap();
        assert_eq!(q.statement, format!("DELETE FROM users WHERE {}", expected));
        assert_eq!(q.params.values.len(), 1);
    }
}

#[test]
fn in_list_binds_each_value() {
    let query = Query::new().with_condition(
        "age",
        QueryOperator::In(vec![Value::Integer(1), Value::Integer(2), Value::Null]),
    );
    let q = compile(&CrudOperation::Read(read(query)), &users_schema()).unwrap();
    assert_eq!(q.statement, "SELECT * FROM users WHERE age IN (?, ?, ?)");
    assert_eq!(
        params(&q),
        vec![entry("age", Value::Integer(1)), entry("age", Value::Integer(2)), entry("age", Value::Null)]
    );
}

#[test]
fn empty_in_list_is_an_error() {
    let query = Query::new().with_condition("age", QueryOperator::In(vec![]));
    let r = compile(&CrudOperation::Read(read(query)), &users_schema());
    assert_eq!(r, Err(SqlError::EmptyInList));
}

#[test]
fn overridden_empty_in_list_is_not_an_error() {
    let query = Query::new()
        .with_condition("age", QueryOperator::In(vec![]))
        .with_condition("age", QueryOperator::Equal(Value::Integer(3)));
    let q = compile(&CrudOperation::Read(read(query)), &users_schema()).unwrap();
    assert_eq!(q.statement, "SELECT * FROM users WHERE age = ?");
}

#[test]
fn update_sets_then_filters() {
    let op = CrudOperation::Update(UpdateOperation {
        table: "users".to_string(),
        query: Query::new().with_condition("email", QueryOperator::Equal(text("j@x.org"))),
        updates: vec![entry("age", Value::Integer(31)), entry("name", text("Jo"))],
    });
    let q = compile(&op, &users_schema()).unwrap();
    assert_eq!(q.statement, "UPDATE users SET name = ?, age = ? WHERE email = ?");
    assert_eq!(
        params(&q),
        vec![entry("name", text("Jo")), entry("age", Value::Integer(31)), entry("email", text("j@x.org"))]
    );
}

#[test]
fn delete_without_conditions_targets_every_row() {
    let op = CrudOperation::Delete(DeleteOperation { table: "users".to_string(), query: Query::new() });
    let q = compile(&op, &users_schema()).unwrap();
    assert_eq!(q.statement, "DELETE FROM users");
    assert!(q.params.values.is_empty());
}

#[test]
fn undeclared_names_are_invalid_identifiers() {
    let schema = users_schema();
    let unknown_table = CrudOperation::Delete(DeleteOperation { table: "admins".to_string(), query: Query::new() });
    assert_eq!(compile(&unknown_table, &schema), Err(SqlError::InvalidIdentifier));
    let injected = CrudOperation::Create(CreateOperation {
        table: "users".to_string(),
        data: vec![entry("name); DROP TABLE users; --", text("x"))],
    });
    assert_eq!(compile(&injected, &schema), Err(SqlError::InvalidIdentifier));
    let mut r = read(Query::new());
    r.order_by = Some(vec![("nope".to_string(), true)]);
    assert_eq!(compile(&CrudOperation::Read(r), &schema), Err(SqlError::InvalidIdentifier));
    let mut r = read(Query::new());
    r.fields = Some(vec!["id".to_string(), "password".to_string()]);
    assert_eq!(compile(&CrudOperation::Read(r), &schema), Err(SqlError::InvalidIdentifier));
    let bad_where = read(Query::new().with_condition("ghost", QueryOperator::Equal(Value::Null)));
    assert_eq!(compile(&CrudOperation::Read(bad_where), &schema), Err(SqlError::InvalidIdentifier));
    let bad_update = CrudOperation::Update(UpdateOperation {
        table: "users".to_string(),
        query: Query::new(),
        updates: vec![entry("ghost", Value::Null)],
    });
    assert_eq!(compile(&bad_update, &schema), Err(SqlError::InvalidIdentifier));
}

#[test]
fn invalid_identifier_comes_before_empty_in_list() {
    let query = Query::new()
        .with_condition("age", QueryOperator::In(vec![]))
        .with_condition("ghost", QueryOperator::Equal(Value::Null));
    assert_eq!(compile(&CrudOperation::Read(read(query)), &users_schema()), Err(SqlError::InvalidIdentifier));
}

#[test]
fn compiling_twice_gives_identical_output() {
    let op = CrudOperation::Update(UpdateOperation {
        table: "users".to_string(),
        query: Query::new()
            .with_condition("age", QueryOperator::In(vec![Value::Integer(1), Value::Integer(2)]))
            .with_condition("name", QueryOperator::Like("%a%".to_string())),
        updates: vec![entry("email", Value::Null), entry("age", Value::Real(2.5f64.to_bits()))],
    });
    let schema = users_schema();
    let first = compile(&op, &schema).unwrap();
    let second = compile(&op, &schema).unwrap();
    assert_eq!(first, second);
    assert_eq!(first.statement, "UPDATE users SET email = ?, age = ? WHERE name LIKE ? AND age IN (?, ?)");
}

#[test]
fn params_and_query_builders() {
    let p = runar_sqlite::model::Params::new()
        .with_value("a", Value::Integer(1))
        .with_value("b", Value::Boolean(true))
        .with_value("a", Value::Integer(3));
    assert_eq!(p.values, vec![entry("a", Value::Integer(3)), entry("b", Value::Boolean(true))]);
    let q = SqlQuery::new("SELECT 1").with_params(p.clone());
    assert_eq!(q.statement, "SELECT 1");
    assert_eq!(q.params, p);
    let query = Query::new()
        .with_condition("x", QueryOperator::Equal(Value::Null))
        .with_condition("x", QueryOperator::Like("y".to_string()));
    assert_eq!(query.conditions, vec![("x".to_string(), QueryOperator::Like("y".to_string()))]);
}

#[test]
fn value_duplicate_keeps_content() {
    let v = Value::Blob(vec![0, 255, 7]);
    assert_eq!(v.duplicate(), v);
    let v = Value::Text("héllo".to_string());
    assert_eq!(v.duplicate(), v);
}
