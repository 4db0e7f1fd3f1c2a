use runar_sqlite::error::SqlError;
use runar_sqlite::model::{CrudOperation, DeleteOperation, Query};
use runar_sqlite::schema::{ColumnDefinition, DataType, Schema, TableDefinition};
use runar_sqlite::service::{ServiceState, SqliteConfig, SqliteService};

fn config() -> SqliteConfig {
    let schema = Schema::new().add_table(TableDefinition {
        name: "items".to_string(),
        columns: vec![ColumnDefinition {
            name: "id".to_string(),
            data_type: DataType::Integer,
            constraints: vec![],
            default_value: None,
        }],
        primary_key: vec![],
        foreign_keys: vec![],
        indexes: vec![],
    });
    SqliteConfig::new("items.db".to_string(), schema)
}

fn delete_all() -> CrudOperation {
    CrudOperation::Delete(DeleteOperation { table: "items".to_string(), query: Query::new() })
}

#[test]
fn lifecycle_runs_start_to_stop() {
    let mut s: SqliteService<u32> = SqliteService::new(config());
    assert_eq!(s.state(), ServiceState::Stopped);
    assert_eq!(s.prepare_crud(&delete_all()), Err(SqlError::NotReady));
    assert_eq!(s.connection(), Err(SqlError::NotReady));
    let ddl = s.begin_start().unwrap();
    assert_eq!(ddl, vec!["CREATE TABLE IF NOT EXISTS items (id INTEGER)".to_string()]);
    assert_eq!(s.state(), ServiceState::Starting);
    assert_eq!(s.prepare_crud(&delete_all()), Err(SqlError::NotReady));
    assert!(s.finish_start(7));
    assert_eq!(s.state(), ServiceState::Ready);
    assert_eq!(s.connection(), Ok(&7));
    assert_eq!(s.prepare_crud(&delete_all()).unwrap().statement, "DELETE FROM items");
    assert_eq!(s.begin_start(), Err(SqlError::NotStopped));
    assert_eq!(s.begin_stop(), Ok(7));
    assert_eq!(s.state(), ServiceState::Stopping);
    assert_eq!(s.connection(), Err(SqlError::NotReady));
    s.finish_stop();
    assert_eq!(s.state(), ServiceState::Stopped);
    assert_eq!(s.prepare_crud(&delete_all()), Err(SqlError::NotReady));
    assert_eq!(s.begin_stop(), Err(SqlError::NotReady));
}

#[test]
fn failed_start_returns_to_stopped() {
    let mut s: SqliteService<u32> = SqliteService::new(config());
    assert!(!s.finish_start(1));
    s.begin_start().unwrap();
    s.fail_start();
    assert_eq!(s.state(), ServiceState::Stopped);
    assert_eq!(s.connection(), Err(SqlError::NotReady));
}

#[test]
fn invalid_schema_keeps_service_stopped() {
    let mut c = config();
    c.schema = c.schema.add_table(TableDefinition {
        name: "items".to_string(),
        columns: vec![],
        primary_key: vec![],
        foreign_keys: vec![],
        indexes: vec![],
    });
    let mut s: SqliteService<u32> = SqliteService::new(c);
    assert_eq!(s.begin_start(), Err(SqlError::SchemaValidationError));
    assert_eq!(s.state(), ServiceState::Stopped);
}

#[test]
fn result_types_come_from_the_operation_table() {
    let s: SqliteService<u32> = SqliteService::new(config());
    let ns = vec!["id".to_string(), "x".to_string()];
    assert_eq!(s.result_types(&delete_all(), &ns), vec![Some(DataType::Integer), None]);
    let other = CrudOperation::Delete(DeleteOperation { table: "nope".to_string(), query: Query::new() });
    assert_eq!(s.result_types(&other, &ns), vec![None, None]);
    assert_eq!(s.config().db_path, "items.db");
}
