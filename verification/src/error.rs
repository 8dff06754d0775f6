//! The datastore layer's closed error taxonomy.
//!
//! Each kind wraps the description of an underlying driver or connection
//! failure.  A kind renders a human-readable message that embeds the
//! wrapped cause, and exposes a short, stable category string that does
//! not depend on the cause.  The two low-level failures that arise before
//! any statement runs — waiting too long for a pooled connection, and
//! failing to connect to the database at all — have their own carrier
//! types and convert into the taxonomy through `From`.

use vstd::prelude::*;
use vstd::string::StringExecFns;

verus! {

/// A timeout while waiting for a connection from the bounded pool, with
/// the pool's own description of the failure.
#[derive(Clone, Debug, PartialEq)]
pub struct PoolTimeout {
    pub detail: String,
}

/// A failure to establish a database connection, with the driver's own
/// description of the failure.
#[derive(Clone, Debug, PartialEq)]
pub struct ConnectFailure {
    pub detail: String,
}

/// A failure reported by the database while running a statement, with the
/// driver's own description of the failure.
#[derive(Clone, Debug, PartialEq)]
pub struct SqlFailure {
    pub detail: String,
}

/// The closed set of failure kinds produced by the datastore layer.
#[derive(Clone, Debug, PartialEq)]
pub enum Error {
    ConnectionTimeout(PoolTimeout),
    FunctionCreate(SqlFailure),
    FunctionRun(SqlFailure),
    Migration(SqlFailure),
    MigrationCheck(SqlFailure),
    MigrationTable(SqlFailure),
    MigrationTracking(SqlFailure),
    PostgresConnect(ConnectFailure),
    SchemaCreate(SqlFailure),
    SetSearchPath(SqlFailure),
    TransactionCreate(SqlFailure),
    TransactionCommit(SqlFailure),
}

impl Error {
    /// The human-readable message: a fixed prefix for the kind, followed
    /// by the wrapped cause's description.
    pub open spec fn message_spec(self) -> Seq<char> {
        match self {
            Error::ConnectionTimeout(c) => "Connection timeout, "@ + c.detail@,
            Error::FunctionCreate(c) => "Error creating a function: "@ + c.detail@,
            Error::FunctionRun(c) => "Error running a function: "@ + c.detail@,
            Error::Migration(c) => "Error executing migration: "@ + c.detail@,
            Error::MigrationCheck(c) => "Error checking if a migration has run: "@ + c.detail@,
            Error::MigrationTable(c) => "Error creating migration tracking table: "@ + c.detail@,
            Error::MigrationTracking(c) => "Error updating migration tracking table: "@ + c.detail@,
            Error::PostgresConnect(c) => "Postgres connection error: "@ + c.detail@,
            Error::SchemaCreate(c) => "Error creating schema: "@ + c.detail@,
            Error::SetSearchPath(c) => "Error setting local search path: "@ + c.detail@,
            Error::TransactionCreate(c) => "Error creating transaction: "@ + c.detail@,
            Error::TransactionCommit(c) => "Error committing transaction: "@ + c.detail@,
        }
    }

    /// The short, stable category string of the kind, independent of the
    /// wrapped cause.
    pub open spec fn category_spec(self) -> Seq<char> {
        match self {
            Error::ConnectionTimeout(_) => "Connection timeout"@,
            Error::FunctionCreate(_) => "Error creating database function"@,
            Error::FunctionRun(_) => "Error running a database function"@,
            Error::Migration(_) => "Error executing migration"@,
            Error::MigrationCheck(_) => "Error checking if a migration has run"@,
            Error::MigrationTable(_) => "Error creating migration tracking table"@,
            Error::MigrationTracking(_) => "Error updating migration tracking table"@,
            Error::PostgresConnect(_) => "Postgres connection error"@,
            Error::SchemaCreate(_) => "Error creating a schema"@,
            Error::SetSearchPath(_) => "Error setting local search path"@,
            Error::TransactionCreate(_) => "Error creating a transaction"@,
            Error::TransactionCommit(_) => "Error committing a transaction"@,
        }
    }

    /// Renders the kind's message with the wrapped cause embedded.
    pub fn message(&self) -> (r: String)
        ensures
            r@ == self.message_spec(),
    {
        match self {
            Error::ConnectionTimeout(c) => "Connection timeout, ".to_owned().concat(
                c.detail.as_str(),
            ),
            Error::FunctionCreate(c) => "Error creating a function: ".to_owned().concat(
                c.detail.as_str(),
            ),
            Error::FunctionRun(c) => "Error running a function: ".to_owned().concat(
                c.detail.as_str(),
            ),
            Error::Migration(c) => "Error executing migration: ".to_owned().concat(
                c.detail.as_str(),
            ),
            Error::MigrationCheck(c) => "Error checking if a migration has run: ".to_owned()
                .concat(c.detail.as_str()),
            Error::MigrationTable(c) => "Error creating migration tracking table: ".to_owned()
                .concat(c.detail.as_str()),
            Error::MigrationTracking(c) => "Error updating migration tracking table: ".to_owned()
                .concat(c.detail.as_str()),
            Error::PostgresConnect(c) => "Postgres connection error: ".to_owned().concat(
                c.detail.as_str(),
            ),
            Error::SchemaCreate(c) => "Error creating schema: ".to_owned().concat(
                c.detail.as_str(),
            ),
            Error::SetSearchPath(c) => "Error setting local search path: ".to_owned().concat(
                c.detail.as_str(),
            ),
            Error::TransactionCreate(c) => "Error creating transaction: ".to_owned().concat(
                c.detail.as_str(),
            ),
            Error::TransactionCommit(c) => "Error committing transaction: ".to_owned().concat(
                c.detail.as_str(),
            ),
        }
    }

    /// Returns the kind's category string.
    pub fn category(&self) -> (r: &'static str)
        ensures
            r@ == self.category_spec(),
    {
        match self {
            Error::ConnectionTimeout(_) => "Connection timeout",
            Error::FunctionCreate(_) => "Error creating database function",
            Error::FunctionRun(_) => "Error running a database function",
            Error::Migration(_) => "Error executing migration",
            Error::MigrationCheck(_) => "Error checking if a migration has run",
            Error::MigrationTable(_) => "Error creating migration tracking table",
            Error::MigrationTracking(_) => "Error updating migration tracking table",
            Error::PostgresConnect(_) => "Postgres connection error",
            Error::SchemaCreate(_) => "Error creating a schema",
            Error::SetSearchPath(_) => "Error setting local search path",
            Error::TransactionCreate(_) => "Error creating a transaction",
            Error::TransactionCommit(_) => "Error committing a transaction",
        }
    }
}

impl From<PoolTimeout> for Error {
    fn from(err: PoolTimeout) -> Error {
        Error::ConnectionTimeout(err)
    }
}

impl vstd::std_specs::convert::FromSpecImpl<PoolTimeout> for Error {
    open spec fn obeys_from_spec() -> bool {
        true
    }

    open spec fn from_spec(v: PoolTimeout) -> Error {
        Error::ConnectionTimeout(v)
    }
}

impl From<ConnectFailure> for Error {
    fn from(err: ConnectFailure) -> Error {
        Error::PostgresConnect(err)
    }
}

impl vstd::std_specs::convert::FromSpecImpl<ConnectFailure> for Error {
    open spec fn obeys_from_spec() -> bool {
        true
    }

    open spec fn from_spec(v: ConnectFailure) -> Error {
        Error::PostgresConnect(v)
    }
}

} // verus!
