//! Opening the database of the application and the stores kept in it.

use crate::adapter::{KeyvStore, KeyvStoreBuilder};
use crate::driver::{migrate_to_latest, open, pragma_update};
use crate::errors::{KeyvError, StoreError, StoreErrorView};
use crate::keyv::Keyv;
use crate::store::Store;
use rusqlite::Connection;
use rusqlite_migration::M;
use vstd::prelude::*;
use vstd::string::*;

verus! {

/// The name of the database file of `identifier`: `-debug` goes between the
/// identifier and the extension in a debug build.
pub open spec fn db_file_text(identifier: Seq<char>, debug: bool) -> Seq<char> {
    if debug {
        identifier + "-debug.db"@
    } else {
        identifier + ".db"@
    }
}

/// The name of the database file: that of `file_name` where one is given,
/// else that of `package`.
pub fn db_file_name(file_name: Option<&str>, package: &str, debug: bool) -> (name: String)
    ensures
        name@ == db_file_text(
            match file_name {
                Some(file) => file@,
                None => package@,
            },
            debug,
        ),
{
    let identifier = match file_name {
        Some(file) => file,
        None => package,
    };
    if debug {
        String::from_str(identifier).concat("-debug.db")
    } else {
        String::from_str(identifier).concat(".db")
    }
}

/// The answer of the driver, with a failure as a connection error that holds
/// the driver's message.
pub fn or_connection_error<T>(answer: Result<T, String>) -> (res: Result<T, StoreError>)
    ensures
        match answer {
            Ok(value) => res == Ok::<T, StoreError>(value),
            Err(detail) => res matches Err(error) && error@ == StoreErrorView::ConnectionError(
                detail@,
            ),
        },
{
    match answer {
        Ok(value) => Ok(value),
        Err(detail) => Err(StoreError::ConnectionError(detail)),
    }
}

/// The answer of the migrator, with a failure as a database error that holds
/// the migrator's message.
pub fn or_database_error<T>(answer: Result<T, String>) -> (res: Result<T, StoreError>)
    ensures
        match answer {
            Ok(value) => res == Ok::<T, StoreError>(value),
            Err(detail) => res matches Err(error) && error@ == (StoreErrorView::DatabaseError {
                source: detail@,
            }),
        },
{
    match answer {
        Ok(value) => Ok(value),
        Err(detail) => Err(StoreError::DatabaseError { source: detail }),
    }
}

/// The pragma that switches a database to write-ahead journaling, by name
/// and value: readers are then not held up by the one writer.
pub fn journal_pragma() -> (pragma: (&'static str, &'static str))
    ensures
        pragma.0@ == "journal_mode"@,
        pragma.1@ == "WAL"@,
{
    ("journal_mode", "WAL")
}

/// Opens the database at `path`, creating the file if need be, switches it to
/// write-ahead journaling and brings its schema to the last of `migrations`.
///
/// A database that cannot be opened or switched gives a connection error, a
/// migration that fails a database error. Without any migration the migrator
/// refuses, so the call fails.
pub fn initialize(path: &str, migrations: Vec<M<'_>>) -> (res: Result<Connection, StoreError>)
    ensures
        migrations@.len() == 0 ==> res is Err,
        res matches Err(error) ==> error@ is ConnectionError || error@ is DatabaseError,
{
    let opened = match open(path) {
        Ok(connection) => Ok(connection),
        Err(error) => Err(error.to_string()),
    };
    let mut connection = or_connection_error(opened)?;
    let pragma = journal_pragma();
    let journaled = match pragma_update(&connection, pragma.0, pragma.1) {
        Ok(()) => Ok(()),
        Err(error) => Err(error.to_string()),
    };
    or_connection_error(journaled)?;
    let migrated = match migrate_to_latest(&mut connection, migrations) {
        Ok(()) => Ok(()),
        Err(error) => Err(error.to_string()),
    };
    or_database_error(migrated)?;
    Ok(connection)
}

/// The store of the namespace `table_name` in the database file at `path`,
/// with its table created.
///
/// Fails with the connection error of the builder where the file cannot be
/// opened, and with a query error where the table cannot be created.
pub fn get_keyv_instance(path: &str, table_name: &str) -> (res: Result<Keyv<KeyvStore>, KeyvError>)
    ensures
        res matches Ok(keyv) ==> keyv.table() is None && keyv.backend().namespace()
            == table_name@,
        res matches Err(KeyvError::StoreError(error)) ==> error@
            == StoreErrorView::ConnectionError("Failed to create database connnection"@)
            || error@.is_query("Failed to initialize the database table"@),
{
    let built = KeyvStoreBuilder::new().uri(path).table_name(table_name).build();
    match built {
        Ok(store) => {
            let mut store = store;
            match store.initialize() {
                Ok(()) => Ok(Keyv::over(store)),
                Err(error) => Err(KeyvError::StoreError(error)),
            }
        },
        Err(error) => Err(KeyvError::StoreError(error)),
    }
}

} // verus!
