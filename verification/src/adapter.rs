//! The SQL backend: a namespace kept as one table of a SQLite database.

use crate::driver::{
    execute, execute_batch, is_conversion_failure, open, query_pairs, query_text,
};
use crate::errors::{StoreError, StoreErrorView};
use crate::keyv::DEFAULT_NAMESPACE_NAME;
use crate::sql::{
    create_table, delete, delete_all, delete_many, select_all, select_value, upsert,
};
use crate::store::{entries_view, Operation, Store, StoreModel, StoreModelView, Table};
use crate::value::{Value, ValueView};
use rusqlite::Connection;
use std::sync::Arc;
use vstd::prelude::*;
use vstd::string::*;

verus! {

/// What a builder has been told so far.
pub struct KeyvStoreBuilderView {
    pub uri: Option<Seq<char>>,
    pub token: Option<Seq<char>>,
    pub connection: Option<Arc<Connection>>,
    pub table_name: Option<Seq<char>>,
}

/// Collects what a [`KeyvStore`] is made of: a connection that is already
/// open, or else the place of the database file; and the name of the table.
pub struct KeyvStoreBuilder {
    uri: Option<String>,
    token: Option<String>,
    connnection: Option<Arc<Connection>>,
    table_name: Option<String>,
}

/// The text of an optional string.
spec fn text_of(text: Option<String>) -> Option<Seq<char>> {
    match text {
        Some(text) => Some(text@),
        None => None,
    }
}

/// The table name that a store gets: the one given, or the default.
pub open spec fn namespace_or_default(table_name: Option<Seq<char>>) -> Seq<char> {
    match table_name {
        Some(name) => name,
        None => DEFAULT_NAMESPACE_NAME@,
    }
}

impl View for KeyvStoreBuilder {
    type V = KeyvStoreBuilderView;

    closed spec fn view(&self) -> KeyvStoreBuilderView {
        KeyvStoreBuilderView {
            uri: text_of(self.uri),
            token: text_of(self.token),
            connection: self.connnection,
            table_name: text_of(self.table_name),
        }
    }
}

impl KeyvStoreBuilder {
    /// A builder that has been told nothing.
    pub fn new() -> (builder: Self)
        ensures
            builder@ == (KeyvStoreBuilderView {
                uri: None,
                token: None,
                connection: None,
                table_name: None,
            }),
    {
        Self { uri: None, token: None, connnection: None, table_name: None }
    }

    /// Names the table of the namespace.
    pub fn table_name(self, table: &str) -> (builder: Self)
        ensures
            builder@ == (KeyvStoreBuilderView { table_name: Some(table@), ..self@ }),
    {
        let mut builder = self;
        builder.table_name = Some(String::from_str(table));
        builder
    }

    /// Says where the database file is. Used only where no connection is
    /// given.
    pub fn uri(self, uri: &str) -> (builder: Self)
        ensures
            builder@ == (KeyvStoreBuilderView { uri: Some(uri@), ..self@ }),
    {
        let mut builder = self;
        builder.uri = Some(String::from_str(uri));
        builder
    }

    /// Takes the credential of a database that is reached over a network. A
    /// database file needs none, and the store that is built does not depend
    /// on it.
    pub fn token(self, token: &str) -> (builder: Self)
        ensures
            builder@ == (KeyvStoreBuilderView { token: Some(token@), ..self@ }),
    {
        let mut builder = self;
        builder.token = Some(String::from_str(token));
        builder
    }

    /// Takes a connection that is already open. It goes before a `uri`.
    pub fn connnection(self, connnection: Arc<Connection>) -> (builder: Self)
        ensures
            builder@ == (KeyvStoreBuilderView { connection: Some(connnection), ..self@ }),
    {
        let mut builder = self;
        builder.connnection = Some(connnection);
        builder
    }

    /// Builds the store: over the connection given, or else over a new
    /// connection to the file at `uri`. The table is named as told, or by
    /// [`DEFAULT_NAMESPACE_NAME`]. The table itself is not touched.
    ///
    /// With a connection given nothing is opened and the build succeeds.
    /// With neither a connection nor a `uri` there is nothing to build on,
    /// and the build fails. Else it fails only where the file cannot be
    /// opened.
    pub fn build(self) -> (res: Result<KeyvStore, StoreError>)
        ensures
            self@.connection matches Some(connection) ==> (res matches Ok(store)
                && store.connection() == connection),
            self@.connection is None && self@.uri is None ==> res is Err,
            res matches Ok(store) ==> store.namespace() == namespace_or_default(
                self@.table_name,
            ),
            res matches Err(error) ==> self@.connection is None && error@
                == StoreErrorView::ConnectionError(
                if self@.uri is None {
                    "KeyvStore requires either a URI or an existing connnection to be set"@
                } else {
                    "Failed to create database connnection"@
                },
            ),
    {
        let connnection = match self.connnection {
            Some(connnection) => connnection,
            None => match self.uri {
                None => {
                    return Err(
                        StoreError::ConnectionError(
                            String::from_str(
                                "KeyvStore requires either a URI or an existing connnection to be set",
                            ),
                        ),
                    );
                },
                Some(path) => match open(path.as_str()) {
                    Ok(database) => Arc::new(database),
                    Err(_) => {
                        return Err(
                            StoreError::ConnectionError(
                                String::from_str("Failed to create database connnection"),
                            ),
                        );
                    },
                },
            },
        };
        let table_name = match self.table_name {
            Some(name) => name,
            None => String::from_str(DEFAULT_NAMESPACE_NAME),
        };
        Ok(KeyvStore { connnection, table_name })
    }
}

/// The driver's answer with its error as the text of the driver's message.
fn described<T>(answer: Result<T, rusqlite::Error>) -> (plain: Result<T, String>)
    ensures
        match answer {
            Ok(value) => plain == Ok::<T, String>(value),
            Err(_) => plain is Err,
        },
{
    match answer {
        Ok(value) => Ok(value),
        Err(error) => Err(error.to_string()),
    }
}

/// What a write returns for the driver's answer: nothing where the statement
/// ran, else the query error of `context` with the driver's message.
pub fn written(context: &str, run: Result<usize, String>) -> (res: Result<(), StoreError>)
    ensures
        match run {
            Ok(_) => res is Ok,
            Err(detail) => res matches Err(error) && error@ == StoreErrorView::query(
                context@,
                detail@,
            ),
        },
{
    match run {
        Ok(_) => Ok(()),
        Err(detail) => Err(StoreError::query(context, detail.as_str())),
    }
}

/// Why the driver could not read: its message, and whether it found a row
/// whose columns do not hold text.
#[derive(Debug, Clone, PartialEq, Eq)]
pub struct ReadFailure {
    pub unreadable: bool,
    pub detail: String,
}

impl ReadFailure {
    /// The error that a read returns for this failure: a row that does not
    /// hold text is a serialization error, anything else the query error of
    /// `context`.
    pub fn error(self, context: &str) -> (error: StoreError)
        ensures
            error@ == StoreErrorView::read(context@, self.unreadable, self.detail@),
    {
        if self.unreadable {
            StoreError::SerializationError { source: self.detail }
        } else {
            StoreError::query(context, self.detail.as_str())
        }
    }
}

/// The driver's answer to a read, with its error as a [`ReadFailure`].
fn described_read<T>(answer: Result<T, rusqlite::Error>) -> (plain: Result<T, ReadFailure>)
    ensures
        match answer {
            Ok(value) => plain == Ok::<T, ReadFailure>(value),
            Err(_) => plain is Err,
        },
{
    match answer {
        Ok(value) => Ok(value),
        Err(error) => Err(
            ReadFailure { unreadable: is_conversion_failure(&error), detail: error.to_string() },
        ),
    }
}

/// What a read returns for the driver's answer: what the stored text is read
/// back as where a row was found, nothing where none was, else the error of
/// the failure.
pub fn fetched(found: Result<Option<String>, ReadFailure>) -> (res: Result<
    Option<Value>,
    StoreError,
>)
    ensures
        match found {
            Ok(Some(text)) => res matches Ok(Some(value)) && value@
                == ValueView::from_stored_text(text@) && value@.read_back(),
            Ok(None) => res matches Ok(None),
            Err(failure) => res matches Err(error) && error@ == StoreErrorView::read(
                "Failed to fetch the value"@,
                failure.unreadable,
                failure.detail@,
            ),
        },
{
    match found {
        Ok(Some(text)) => Ok(Some(Value::from_stored_text(text))),
        Ok(None) => Ok(None),
        Err(failure) => Err(failure.error("Failed to fetch the value")),
    }
}

/// The entry that a row of key and stored text is listed as.
pub open spec fn listed_entry(row: (String, String)) -> StoreModelView {
    StoreModelView { key: row.0@, value: ValueView::from_stored_text(row.1@) }
}

/// What a listing returns for the driver's answer: one entry for each row, in
/// the order of the rows, else the error of the failure.
pub fn listed(rows: Result<Vec<(String, String)>, ReadFailure>) -> (res: Result<
    Vec<StoreModel>,
    StoreError,
>)
    ensures
        match rows {
            Ok(rows) => res matches Ok(entries) && entries_view(entries@) == rows@.map_values(
                |row: (String, String)| listed_entry(row),
            ),
            Err(failure) => res matches Err(error) && error@ == StoreErrorView::read(
                "Failed to list the values"@,
                failure.unreadable,
                failure.detail@,
            ),
        },
        res matches Ok(entries) ==> forall|i: int|
            0 <= i < entries.len() ==> (#[trigger] entries[i]).value@.read_back(),
{
    match rows {
        Ok(rows) => {
            let mut entries: Vec<StoreModel> = Vec::new();
            let mut i: usize = 0;
            while i < rows.len()
                invariant
                    i <= rows.len(),
                    entries.len() == i,
                    forall|j: int|
                        0 <= j < i ==> (#[trigger] entries[j])@ == listed_entry(rows[j])
                            && entries[j].value@.read_back(),
                decreases rows.len() - i,
            {
                entries.push(
                    StoreModel {
                        key: rows[i].0.clone(),
                        value: Value::from_stored_text(rows[i].1.clone()),
                    },
                );
                i += 1;
            }
            assert(entries_view(entries@) =~= rows@.map_values(
                |row: (String, String)| listed_entry(row),
            ));
            Ok(entries)
        },
        Err(failure) => Err(failure.error("Failed to list the values")),
    }
}

/// A namespace kept as one table of a SQLite database. The connection may be
/// shared with other namespaces of the same database.
///
/// What is in the table is the database's affair: other connections and
/// other processes can reach it. The store therefore claims no
/// [`Table`](crate::store::Table); its contracts say what is returned for
/// each answer of the database.
pub struct KeyvStore {
    connnection: Arc<Connection>,
    table_name: String,
}

impl KeyvStore {
    /// The name of the table.
    pub closed spec fn namespace(&self) -> Seq<char> {
        self.table_name@
    }

    /// The connection that the statements go to.
    pub closed spec fn connection(&self) -> Arc<Connection> {
        self.connnection
    }

    /// The name of the table.
    pub fn get_table_name(&self) -> (name: String)
        ensures
            name@ == self.namespace(),
    {
        self.table_name.clone()
    }
}

impl Store for KeyvStore {
    open spec fn table(&self) -> Option<Table> {
        None
    }

    /// A write of a value that is not well formed fails with the error of
    /// such a value. Else an operation fails with the query error of what
    /// was attempted, and a read also with a serialization error, where a
    /// row holds no text.
    open spec fn fails_with(operation: Operation, error: StoreErrorView) -> bool {
        match operation {
            Operation::Read | Operation::List => error.is_read(operation.context()),
            Operation::Write => error == StoreErrorView::malformed() || error.is_query(
                operation.context(),
            ),
            _ => error.is_query(operation.context()),
        }
    }

    /// Runs the batch of [`create_table`].
    fn initialize(&mut self) -> (res: Result<(), StoreError>)
        ensures
            final(self).namespace() == old(self).namespace(),
            final(self).connection() == old(self).connection(),
            res matches Err(error) ==> error@.is_query("Failed to initialize the database table"@),
    {
        let statement = create_table(self.table_name.as_str());
        let run = match described(execute_batch(&self.connnection, statement.sql.as_str())) {
            Ok(()) => Ok(0),
            Err(detail) => Err(detail),
        };
        written("Failed to initialize the database table", run)
    }

    /// Runs the query of [`select_value`].
    fn get(&self, key: &str) -> (res: Result<Option<Value>, StoreError>)
        ensures
            res matches Err(error) ==> error@.is_read("Failed to fetch the value"@),
    {
        let statement = select_value(self.table_name.as_str(), key);
        fetched(described_read(query_text(&self.connnection, &statement)))
    }

    /// Runs the query of [`select_all`].
    fn list(&self) -> (res: Result<Vec<StoreModel>, StoreError>)
        ensures
            res matches Err(error) ==> error@.is_read("Failed to list the values"@),
    {
        let statement = select_all(self.table_name.as_str());
        listed(described_read(query_pairs(&self.connnection, &statement)))
    }

    /// Runs the statement of [`upsert`], where the value is well formed; a
    /// value that is not is refused and nothing is run.
    fn set(&mut self, key: &str, value: Value, ttl: Option<u64>) -> (res: Result<(), StoreError>)
        ensures
            final(self).namespace() == old(self).namespace(),
            final(self).connection() == old(self).connection(),
            res matches Err(error) ==> (if value@.well_formed() {
                error@.is_query("Failed to set the value"@)
            } else {
                error@ == StoreErrorView::malformed()
            }),
    {
        if !value.is_well_formed() {
            return Err(StoreError::malformed());
        }
        let statement = upsert(self.table_name.as_str(), key, &value);
        written("Failed to set the value", described(execute(&self.connnection, &statement)))
    }

    /// Runs the statement of [`delete`].
    fn remove(&mut self, key: &str) -> (res: Result<(), StoreError>)
        ensures
            final(self).namespace() == old(self).namespace(),
            final(self).connection() == old(self).connection(),
            res matches Err(error) ==> error@.is_query("Failed to remove the key"@),
    {
        let statement = delete(self.table_name.as_str(), key);
        written("Failed to remove the key", described(execute(&self.connnection, &statement)))
    }

    /// Runs the one statement of [`delete_many`], so that the database
    /// deletes all of the rows or none. With no key nothing is asked of the
    /// database.
    fn remove_many(&mut self, keys: &[&str]) -> (res: Result<(), StoreError>)
        ensures
            final(self).namespace() == old(self).namespace(),
            final(self).connection() == old(self).connection(),
            res matches Err(error) ==> error@.is_query("Failed to remove the keys"@),
    {
        if keys.len() == 0 {
            return Ok(());
        }
        let statement = delete_many(self.table_name.as_str(), keys);
        written("Failed to remove the keys", described(execute(&self.connnection, &statement)))
    }

    /// Runs the statement of [`delete_all`].
    fn clear(&mut self) -> (res: Result<(), StoreError>)
        ensures
            final(self).namespace() == old(self).namespace(),
            final(self).connection() == old(self).connection(),
            res matches Err(error) ==> error@.is_query("Failed to clear the table"@),
    {
        let statement = delete_all(self.table_name.as_str());
        written("Failed to clear the table", described(execute(&self.connnection, &statement)))
    }
}

} // verus!
