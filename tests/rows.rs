use runar_sqlite::error::SqlError;
use runar_sqlite::rows::{bind_value, declared_types, map_cell, map_row, map_rows, Cell};
use runar_sqlite::schema::{ColumnDefinition, DataType, TableDefinition};
use runar_sqlite::value::Value;

fn names(ns: &[&str]) -> Vec<String> {
    ns.iter().map(|n| n.to_string()).collect()
}

#[test]
fn values_round_trip_through_matching_columns() {
    let cases = vec![
        (Value::Integer(-7), DataType::Integer),
        (Value::Real(3.25f64.to_bits()), DataType::Real),
        (Value::Text("John Doe".to_string()), DataType::Text),
        (Value::Blob(vec![1, 2, 3]), DataType::Blob),
    ];
    for (v, dt) in cases {
        let cell = bind_value(&v);
        assert_eq!(map_cell(&cell, Some(dt)), Ok(v));
    }
}

#[test]
fn null_round_trips_for_every_type() {
    for dt in [DataType::Integer, DataType::Real, DataType::Text, DataType::Blob] {
        assert_eq!(map_cell(&bind_value(&Value::Null), Some(dt)), Ok(Value::Null));
    }
}

#[test]
fn boolean_is_stored_as_integer() {
    assert_eq!(bind_value(&Value::Boolean(true)), Cell::Integer(1));
    assert_eq!(bind_value(&Value::Boolean(false)), Cell::Integer(0));
    assert_eq!(map_cell(&bind_value(&Value::Boolean(true)), Some(DataType::Integer)), Ok(Value::Integer(1)));
}

#[test]
fn mismatched_cell_reports_its_own_type() {
    assert_eq!(map_cell(&Cell::Text("x".to_string()), Some(DataType::Integer)), Err(DataType::Text));
    assert_eq!(map_cell(&Cell::Integer(3), Some(DataType::Real)), Err(DataType::Integer));
    assert_eq!(map_cell(&Cell::Real(0), None), Ok(Value::Real(0)));
}

#[test]
fn row_maps_every_column() {
    let row = map_row(
        &names(&["id", "name"]),
        &vec![Some(DataType::Integer), None],
        &vec![Cell::Integer(1), Cell::Blob(vec![9])],
    );
    assert_eq!(
        row,
        Ok(vec![("id".to_string(), Value::Integer(1)), ("name".to_string(), Value::Blob(vec![9]))])
    );
}

#[test]
fn row_mismatch_names_the_first_bad_column() {
    let row = map_row(
        &names(&["id", "age", "email"]),
        &vec![Some(DataType::Integer), Some(DataType::Integer), Some(DataType::Integer)],
        &vec![Cell::Integer(1), Cell::Text("old".to_string()), Cell::Blob(vec![])],
    );
    assert_eq!(
        row,
        Err(SqlError::TypeMismatch { column: "age".to_string(), expected: DataType::Integer, actual: DataType::Text })
    );
}

#[test]
fn rows_keep_driver_order_and_empty_is_empty() {
    let ns = names(&["n"]);
    let types = vec![Some(DataType::Integer)];
    let rows = vec![vec![Cell::Integer(2)], vec![Cell::Null], vec![Cell::Integer(1)]];
    assert_eq!(
        map_rows(&ns, &types, &rows),
        Ok(vec![
            vec![("n".to_string(), Value::Integer(2))],
            vec![("n".to_string(), Value::Null)],
            vec![("n".to_string(), Value::Integer(1))],
        ])
    );
    assert_eq!(map_rows(&ns, &types, &vec![]), Ok(vec![]));
    let bad = vec![vec![Cell::Integer(2)], vec![Cell::Real(1)]];
    assert!(matches!(map_rows(&ns, &types, &bad), Err(SqlError::TypeMismatch { .. })));
}

#[test]
fn declared_types_follow_the_table() {
    let t = TableDefinition {
        name: "t".to_string(),
        columns: vec![
            ColumnDefinition { name: "a".to_string(), data_type: DataType::Real, constraints: vec![], default_value: None },
            ColumnDefinition { name: "b".to_string(), data_type: DataType::Blob, constraints: vec![], default_value: None },
        ],
        primary_key: vec![],
        foreign_keys: vec![],
        indexes: vec![],
    };
    assert_eq!(
        declared_types(&t, &names(&["b", "count(*)", "a"])),
        vec![Some(DataType::Blob), None, Some(DataType::Real)]
    );
}
