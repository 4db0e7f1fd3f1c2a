//! The service facade: its configuration, its lifecycle, and the connection
//! it owns while it is ready.
//!
//! The facade decides; its host performs. `begin_start` hands out the DDL to
//! run, the host opens the engine and runs it, then reports back with
//! `finish_start` or `fail_start`. Statements are handed out only while the
//! facade is `Ready`, and only after they have been compiled.
use crate::compiler::{compile, compile_spec, compiled_view};
use crate::ddl::{initialization_statements, schema_statements};
use crate::error::SqlError;
use crate::model::{CrudOperation, SqlQuery};
use crate::rows::{declared_types, types_of};
use crate::schema::{DataType, Schema};
use crate::text::views;
use vstd::prelude::*;

verus! {

/// Where the database lives and the shape it must have.
#[derive(Debug, Clone, PartialEq)]
pub struct SqliteConfig {
    /// Path to the database file.
    pub db_path: String,
    pub schema: Schema,
}

impl SqliteConfig {
    pub fn new(db_path: String, schema: Schema) -> (r: SqliteConfig)
        ensures
            r.db_path == db_path,
            r.schema == schema,
    {
        SqliteConfig { db_path, schema }
    }
}

/// `Stopped -> Starting -> Ready -> Stopping -> Stopped`.
#[derive(Debug, Clone, Copy, PartialEq, Eq, Structural)]
pub enum ServiceState {
    Stopped,
    Starting,
    Ready,
    Stopping,
}

impl CrudOperation {
    /// The table that the operation names.
    pub open spec fn table_spec(&self) -> String {
        match self {
            CrudOperation::Create(c) => c.table,
            CrudOperation::Read(r) => r.table,
            CrudOperation::Update(u) => u.table,
            CrudOperation::Delete(d) => d.table,
        }
    }

    pub fn table(&self) -> (r: &String)
        ensures
            *r == self.table_spec(),
    {
        match self {
            CrudOperation::Create(c) => &c.table,
            CrudOperation::Read(r) => &r.table,
            CrudOperation::Update(u) => &u.table,
            CrudOperation::Delete(d) => &d.table,
        }
    }
}

/// The facade over one connection of type `C`, which it holds exactly while
/// it is `Ready`.
pub struct SqliteService<C> {
    config: SqliteConfig,
    state: ServiceState,
    connection: Option<C>,
}

impl<C> SqliteService<C> {
    pub closed spec fn state_of(&self) -> ServiceState {
        self.state
    }

    pub closed spec fn connection_of(&self) -> Option<C> {
        self.connection
    }

    pub closed spec fn config_of(&self) -> SqliteConfig {
        self.config
    }

    /// The connection is held exactly while the service is ready.
    pub open spec fn inv(&self) -> bool {
        (self.state_of() == ServiceState::Ready) == (self.connection_of() is Some)
    }

    /// A stopped service with this configuration.
    pub fn new(config: SqliteConfig) -> (r: Self)
        ensures
            r.inv(),
            r.state_of() == ServiceState::Stopped,
            r.config_of() == config,
    {
        SqliteService { config, state: ServiceState::Stopped, connection: None }
    }

    pub fn state(&self) -> (r: ServiceState)
        ensures
            r == self.state_of(),
    {
        self.state
    }

    pub fn config(&self) -> (r: &SqliteConfig)
        ensures
            *r == self.config_of(),
    {
        &self.config
    }

    /// Starts a stopped service: checks the schema and hands out the DDL
    /// that the host runs on a freshly opened connection. An invalid schema
    /// leaves the service stopped; a service that is not stopped is left as
    /// it is.
    pub fn begin_start(&mut self) -> (r: Result<Vec<String>, SqlError>)
        requires
            old(self).inv(),
        ensures
            final(self).inv(),
            final(self).config_of() == old(self).config_of(),
            old(self).state_of() != ServiceState::Stopped ==> r == Err::<Vec<String>, SqlError>(SqlError::NotStopped)
                && *final(self) == *old(self),
            old(self).state_of() == ServiceState::Stopped && !old(self).config_of().schema.is_valid() ==> r
                == Err::<Vec<String>, SqlError>(SqlError::SchemaValidationError) && final(self).state_of()
                == ServiceState::Stopped,
            old(self).state_of() == ServiceState::Stopped && old(self).config_of().schema.is_valid() ==> r is Ok
                && views(r->Ok_0@) == schema_statements(old(self).config_of().schema.tables@)
                && final(self).state_of() == ServiceState::Starting,
    {
        if self.state != ServiceState::Stopped {
            return Err(SqlError::NotStopped);
        }
        let stmts = initialization_statements(&self.config.schema)?;
        self.state = ServiceState::Starting;
        Ok(stmts)
    }

    /// The host opened the connection and ran the DDL: a starting service
    /// becomes ready and keeps the connection. In any other state nothing
    /// changes and the result is `false`.
    pub fn finish_start(&mut self, connection: C) -> (r: bool)
        requires
            old(self).inv(),
        ensures
            final(self).inv(),
            final(self).config_of() == old(self).config_of(),
            r == (old(self).state_of() == ServiceState::Starting),
            r ==> final(self).state_of() == ServiceState::Ready && final(self).connection_of() == Some(connection),
            !r ==> *final(self) == *old(self),
    {
        if self.state != ServiceState::Starting {
            return false;
        }
        self.state = ServiceState::Ready;
        self.connection = Some(connection);
        true
    }

    /// Opening the connection or running the DDL failed: a starting service
    /// goes back to stopped. In any other state nothing changes.
    pub fn fail_start(&mut self)
        requires
            old(self).inv(),
        ensures
            final(self).inv(),
            final(self).config_of() == old(self).config_of(),
            old(self).state_of() == ServiceState::Starting ==> final(self).state_of() == ServiceState::Stopped,
            old(self).state_of() != ServiceState::Starting ==> *final(self) == *old(self),
    {
        if self.state == ServiceState::Starting {
            self.state = ServiceState::Stopped;
        }
    }

    /// The connection, while the service is ready.
    pub fn connection(&self) -> (r: Result<&C, SqlError>)
        requires
            self.inv(),
        ensures
            self.state_of() == ServiceState::Ready ==> r is Ok && Some(*r->Ok_0) == self.connection_of(),
            self.state_of() != ServiceState::Ready ==> r == Err::<&C, SqlError>(SqlError::NotReady),
    {
        if self.state != ServiceState::Ready {
            return Err(SqlError::NotReady);
        }
        match &self.connection {
            Some(c) => Ok(c),
            None => Err(SqlError::NotReady),
        }
    }

    /// Compiles an operation for execution: `NotReady` unless the service
    /// is ready, and otherwise what the compiler gives, so that nothing
    /// reaches the engine unless it compiled.
    pub fn prepare_crud(&self, op: &CrudOperation) -> (r: Result<SqlQuery, SqlError>)
        ensures
            self.state_of() != ServiceState::Ready ==> r == Err::<SqlQuery, SqlError>(SqlError::NotReady),
            self.state_of() == ServiceState::Ready ==> compiled_view(r) == compile_spec(
                *op,
                self.config_of().schema,
            ),
    {
        if self.state != ServiceState::Ready {
            return Err(SqlError::NotReady);
        }
        compile(op, &self.config.schema)
    }

    /// The declared type of each named result column of an operation's
    /// table, where the table declares it.
    pub fn result_types(&self, op: &CrudOperation, names: &Vec<String>) -> (r: Vec<Option<DataType>>)
        ensures
            r@.len() == names@.len(),
            self.config_of().schema.table_named(op.table_spec()@) is None ==> forall|k: int|
                0 <= k < r@.len() ==> r@[k] is None,
            self.config_of().schema.table_named(op.table_spec()@) is Some ==> types_of(
                self.config_of().schema.tables@[self.config_of().schema.table_named(op.table_spec()@)->0],
                names@,
                r@,
            ),
    {
        match self.config.schema.find_table(op.table()) {
            Some(i) => {
                let r = declared_types(&self.config.schema.tables[i], names);
                assert(self.config_of().schema.table_named(op.table_spec()@) == Some(i as int));
                r
            },
            None => {
                let mut r: Vec<Option<DataType>> = Vec::new();
                let mut k: usize = 0;
                while k < names.len()
                    invariant
                        0 <= k <= names@.len(),
                        r@.len() == k,
                        forall|m: int| 0 <= m < k ==> r@[m] is None,
                    decreases names@.len() - k,
                {
                    r.push(None);
                    k = k + 1;
                }
                r
            },
        }
    }

    /// Stops a ready service: it gives up the connection, which the host
    /// releases before `finish_stop`. `NotReady` in any other state.
    pub fn begin_stop(&mut self) -> (r: Result<C, SqlError>)
        requires
            old(self).inv(),
        ensures
            final(self).inv(),
            final(self).config_of() == old(self).config_of(),
            old(self).state_of() == ServiceState::Ready ==> r is Ok && Some(r->Ok_0) == old(self).connection_of()
                && final(self).state_of() == ServiceState::Stopping,
            old(self).state_of() != ServiceState::Ready ==> r == Err::<C, SqlError>(SqlError::NotReady)
                && *final(self) == *old(self),
    {
        if self.state != ServiceState::Ready {
            return Err(SqlError::NotReady);
        }
        let c = self.connection.take();
        self.state = ServiceState::Stopping;
        match c {
            Some(c) => Ok(c),
            None => Err(SqlError::NotReady),
        }
    }

    /// The connection has been released: a stopping service is stopped. In
    /// any other state nothing changes.
    pub fn finish_stop(&mut self)
        requires
            old(self).inv(),
        ensures
            final(self).inv(),
            final(self).config_of() == old(self).config_of(),
            old(self).state_of() == ServiceState::Stopping ==> final(self).state_of() == ServiceState::Stopped,
            old(self).state_of() != ServiceState::Stopping ==> *final(self) == *old(self),
    {
        if self.state == ServiceState::Stopping {
            self.state = ServiceState::Stopped;
        }
    }
}

} // verus!
