//! A typed layer over an embedded SQL engine: values, conjunctive queries,
//! CRUD intents and table schemas as data, compiled into parameterised SQL
//! text, with driver rows mapped back into typed values.
pub mod compiler;
pub mod ddl;
pub mod error;
pub mod model;
pub mod rows;
pub mod schema;
pub mod service;
pub mod text;
pub mod value;
