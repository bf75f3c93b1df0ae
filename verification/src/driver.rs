//! The calls into the SQLite driver and the schema migrator.
//!
//! Nothing here is proved. Each item says what it hands to the driver and
//! claims of the answer only what the driver's own source shows of every
//! answer: what a statement does to a database is decided by the database.

use crate::sql::Statement;
use rusqlite::{Connection, OptionalExtension};
use rusqlite_migration::{Migrations, M};
use vstd::prelude::*;

verus! {

/// `rusqlite::Connection`: an open database. Opaque to the verifier.
#[verifier::external_type_specification]
#[verifier::external_body]
pub struct ExConnection(rusqlite::Connection);

/// `rusqlite::Error`: why the driver refused a call. Opaque to the verifier.
#[verifier::external_type_specification]
#[verifier::external_body]
pub struct ExDriverError(rusqlite::Error);

/// `rusqlite_migration::Error`: why a migration failed. Opaque to the
/// verifier.
#[verifier::external_type_specification]
#[verifier::external_body]
pub struct ExMigrationError(rusqlite_migration::Error);

/// `rusqlite_migration::M`: one step of a schema migration, with whatever
/// hooks, checks and comment it was made with. Opaque to the verifier.
#[verifier::external_type_specification]
#[verifier::external_body]
pub struct ExMigrationStep<'u>(rusqlite_migration::M<'u>);

/// `rusqlite::Connection::open`: opens the database at `path`, creating the
/// file if there is none. Nothing is claimed of the result.
#[verifier::external_body]
pub(crate) fn open(path: &str) -> (opened: Result<Connection, rusqlite::Error>) {
    Connection::open(path)
}

/// `rusqlite::Connection::pragma_update_and_check`: sets the pragma `name` of
/// the main database to `value` and reads the answer, which is dropped.
/// Nothing is claimed of the result.
#[verifier::external_body]
pub(crate) fn pragma_update(connection: &Connection, name: &str, value: &str) -> (updated: Result<
    (),
    rusqlite::Error,
>) {
    connection.pragma_update_and_check(None, name, value, |_| Ok(()))
}

/// `rusqlite::Connection::execute_batch`: runs the statements of `sql` one
/// after another, without parameters. Nothing is claimed of the result.
#[verifier::external_body]
pub(crate) fn execute_batch(connection: &Connection, sql: &str) -> (run: Result<
    (),
    rusqlite::Error,
>) {
    connection.execute_batch(sql)
}

/// `rusqlite::Connection::execute`: prepares the single statement, binds its
/// parameters to the placeholders in order and runs it; on success the answer
/// is the number of rows that the statement changed. Nothing is claimed of
/// the result.
#[verifier::external_body]
pub(crate) fn execute(connection: &Connection, statement: &Statement) -> (run: Result<
    usize,
    rusqlite::Error,
>) {
    connection.execute(&statement.sql, rusqlite::params_from_iter(statement.params.iter()))
}

/// `rusqlite::Connection::query_row` with `OptionalExtension::optional`: runs
/// the query with its parameters bound in order and answers with the first
/// column of the first row as text, or with `None` where the query has no row.
/// Nothing is claimed of the result.
#[verifier::external_body]
pub(crate) fn query_text(connection: &Connection, statement: &Statement) -> (found: Result<
    Option<String>,
    rusqlite::Error,
>) {
    let params = rusqlite::params_from_iter(statement.params.iter());
    connection.query_row(&statement.sql, params, |row| row.get(0)).optional()
}

/// `rusqlite::Statement::query_map` on a statement from
/// `rusqlite::Connection::prepare`: runs the query with its parameters bound
/// in order and answers with the first two columns of every row as text, in
/// the order in which the database gives the rows. Nothing is claimed of the
/// result.
#[verifier::external_body]
pub(crate) fn query_pairs(connection: &Connection, statement: &Statement) -> (rows: Result<
    Vec<(String, String)>,
    rusqlite::Error,
>) {
    let params = rusqlite::params_from_iter(statement.params.iter());
    let mut prepared = connection.prepare(&statement.sql)?;
    let rows = prepared.query_map(params, |row| Ok((row.get(0)?, row.get(1)?)))?;
    rows.collect()
}

/// Tells apart the variants of `rusqlite::Error` by which `rusqlite::Row::get`
/// says that a column does not hold what was asked for: `InvalidColumnType`,
/// `FromSqlConversionFailure`, `IntegralValueOutOfRange` and `Utf8Error`.
#[verifier::external_body]
pub(crate) fn is_conversion_failure(error: &rusqlite::Error) -> (conversion: bool) {
    match error {
        rusqlite::Error::InvalidColumnType(..) => true,
        rusqlite::Error::FromSqlConversionFailure(..) => true,
        rusqlite::Error::IntegralValueOutOfRange(..) => true,
        rusqlite::Error::Utf8Error(..) => true,
        _ => false,
    }
}

/// `rusqlite_migration::Migrations::to_latest` on the set that
/// `rusqlite_migration::Migrations::new` makes of `steps`: brings the schema
/// to the last step inside one transaction; the hooks of the steps run
/// inside the call. With no step at all the migrator refuses
/// (`NoMigrationsDefined`); that is all that is claimed.
#[verifier::external_body]
pub(crate) fn migrate_to_latest(connection: &mut Connection, steps: Vec<M<'_>>) -> (migrated:
    Result<(), rusqlite_migration::Error>)
    ensures
        steps@.len() == 0 ==> migrated is Err,
{
    Migrations::new(steps).to_latest(connection)
}

} // verus!
