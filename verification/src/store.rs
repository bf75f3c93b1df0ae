//! The storage capability: what every backend of the store offers.

use crate::errors::{StoreError, StoreErrorView};
use crate::value::{Value, ValueView};
use vstd::prelude::*;

verus! {

/// One entry of a namespace: a key and the document read back for it.
#[derive(Debug, Clone, PartialEq, Eq)]
pub struct StoreModel {
    pub key: String,
    pub value: Value,
}

/// What a [`StoreModel`] is in contracts.
pub struct StoreModelView {
    pub key: Seq<char>,
    pub value: ValueView,
}

impl View for StoreModel {
    type V = StoreModelView;

    open spec fn view(&self) -> StoreModelView {
        StoreModelView { key: self.key@, value: self.value@ }
    }
}

/// The entries of a list, each as contracts see it.
pub open spec fn entries_view(entries: Seq<StoreModel>) -> Seq<StoreModelView> {
    entries.map_values(|entry: StoreModel| entry@)
}

/// A namespace as contracts see it: whether its table has been created, and
/// the text stored under each key.
#[verifier::ext_equal]
pub struct Table {
    pub created: bool,
    pub rows: Map<Seq<char>, Seq<char>>,
}

impl Table {
    /// The namespace before anything has touched it.
    pub open spec fn absent() -> Table {
        Table { created: false, rows: Map::empty() }
    }

    /// The namespace after its table has been created, if it was not there.
    pub open spec fn initialize(self) -> Table {
        Table { created: true, rows: self.rows }
    }

    /// The document read for `key`, if a row holds one.
    pub open spec fn get(self, key: Seq<char>) -> Option<ValueView> {
        if self.rows.contains_key(key) {
            Some(ValueView::from_stored_text(self.rows[key]))
        } else {
            None
        }
    }

    /// The namespace after `value` has been written under `key`: the row for
    /// `key` holds the text of `value`, whether or not there was one before.
    pub open spec fn set(self, key: Seq<char>, value: ValueView) -> Table {
        Table { created: self.created, rows: self.rows.insert(key, value.stored_text()) }
    }

    /// The namespace without a row for `key`.
    pub open spec fn remove(self, key: Seq<char>) -> Table {
        Table { created: self.created, rows: self.rows.remove(key) }
    }

    /// The namespace without a row for any of `keys`.
    pub open spec fn remove_many(self, keys: Seq<Seq<char>>) -> Table {
        Table { created: self.created, rows: self.rows.remove_keys(keys.to_set()) }
    }

    /// The namespace without any row; the table stays.
    pub open spec fn clear(self) -> Table {
        Table { created: self.created, rows: Map::empty() }
    }

    /// Whether `entries` lists the namespace: every row once, under its key,
    /// with the document read for it, in any order.
    pub open spec fn lists(self, entries: Seq<StoreModelView>) -> bool {
        &&& forall|i: int|
            0 <= i < entries.len() ==> self.get(#[trigger] entries[i].key) == Some(
                entries[i].value,
            )
        &&& forall|i: int, j: int|
            0 <= i < j < entries.len() ==> #[trigger] entries[i].key != #[trigger] entries[j].key
        &&& forall|key: Seq<char>| #[trigger]
            self.rows.contains_key(key) ==> exists|i: int|
                0 <= i < entries.len() && #[trigger] entries[i].key == key
    }
}

/// The operations of a namespace, by name.
pub enum Operation {
    Initialize,
    Read,
    List,
    Write,
    Remove,
    RemoveMany,
    Clear,
}

impl Operation {
    /// What an error says was attempted, where the operation fails.
    pub open spec fn context(self) -> Seq<char> {
        match self {
            Operation::Initialize => "Failed to initialize the database table"@,
            Operation::Read => "Failed to fetch the value"@,
            Operation::List => "Failed to list the values"@,
            Operation::Write => "Failed to set the value"@,
            Operation::Remove => "Failed to remove the key"@,
            Operation::RemoveMany => "Failed to remove the keys"@,
            Operation::Clear => "Failed to clear the table"@,
        }
    }
}

/// The operations of a namespace.
///
/// A backend that answers for its rows says so by a `table` that is `Some`:
/// of such a backend every operation succeeds once the table is created,
/// fails before that, and changes the rows exactly as stated. A backend that
/// hands its statements to a database with a life of its own has no `table`,
/// and the clauses below leave its results to the database.
pub trait Store {
    /// The namespace, where the backend answers for it.
    spec fn table(&self) -> Option<Table>;

    /// Whether `error` is one that the backend gives where `operation`
    /// fails. Every operation fails with such an error or not at all.
    spec fn fails_with(operation: Operation, error: StoreErrorView) -> bool;

    /// Creates the table of the namespace if it is not there. Rows stay.
    fn initialize(&mut self) -> (res: Result<(), StoreError>)
        ensures
            res matches Err(error) ==> Self::fails_with(Operation::Initialize, error@),
            old(self).table() is None ==> final(self).table() is None,
            old(self).table() matches Some(table) ==> res is Ok && final(self).table() == Some(
                table.initialize(),
            ),
    ;

    /// Reads the document stored under `key`; `None` where no row holds one.
    /// A key without a row is no error: `NotFound` is never returned. The
    /// document is what the stored text is read back as.
    fn get(&self, key: &str) -> (res: Result<Option<Value>, StoreError>)
        ensures
            res matches Err(error) ==> Self::fails_with(Operation::Read, error@),
            res matches Ok(Some(value)) ==> value@.read_back(),
            res matches Err(error) ==> error@ !is NotFound,
            self.table() matches Some(table) ==> (res is Ok <==> table.created),
            self.table() matches Some(table) ==> (res matches Ok(found) ==> match found {
                Some(value) => table.get(key@) == Some(value@),
                None => table.get(key@) is None,
            }),
    ;

    /// Lists every row, in no promised order. Every document is what the
    /// stored text is read back as.
    fn list(&self) -> (res: Result<Vec<StoreModel>, StoreError>)
        ensures
            res matches Err(error) ==> Self::fails_with(Operation::List, error@),
            res matches Ok(entries) ==> forall|i: int|
                0 <= i < entries.len() ==> (#[trigger] entries[i]).value@.read_back(),
            self.table() matches Some(table) ==> (res is Ok <==> table.created),
            self.table() matches Some(table) ==> (res matches Ok(entries) ==> table.lists(
                entries_view(entries@),
            )),
    ;

    /// Writes `value` under `key`, over what was there. A value that is not
    /// well formed cannot be stored: it is refused before anything is
    /// written, with an error that comes for no other reason. `ttl` is taken
    /// and not acted on.
    fn set(&mut self, key: &str, value: Value, ttl: Option<u64>) -> (res: Result<(), StoreError>)
        ensures
            res matches Err(error) ==> Self::fails_with(Operation::Write, error@),
            old(self).table() is None ==> final(self).table() is None,
            !value@.well_formed() ==> (res matches Err(error) && error@
                == StoreErrorView::malformed()),
            res matches Err(error) ==> (error@ == StoreErrorView::malformed()
                ==> !value@.well_formed()),
            old(self).table() matches Some(table) ==> (res is Ok <==> table.created
                && value@.well_formed()),
            old(self).table() matches Some(table) ==> final(self).table() == Some(
                if table.created && value@.well_formed() {
                    table.set(key@, value@)
                } else {
                    table
                },
            ),
    ;

    /// Deletes the row of `key`, if there is one.
    fn remove(&mut self, key: &str) -> (res: Result<(), StoreError>)
        ensures
            res matches Err(error) ==> Self::fails_with(Operation::Remove, error@),
            old(self).table() is None ==> final(self).table() is None,
            old(self).table() matches Some(table) ==> (res is Ok <==> table.created),
            old(self).table() matches Some(table) ==> final(self).table() == Some(
                if table.created {
                    table.remove(key@)
                } else {
                    table
                },
            ),
    ;

    /// Deletes the rows of all of `keys`, or none of them where it fails.
    /// With no key there is nothing to do, and the call succeeds.
    fn remove_many(&mut self, keys: &[&str]) -> (res: Result<(), StoreError>)
        ensures
            res matches Err(error) ==> Self::fails_with(Operation::RemoveMany, error@),
            old(self).table() is None ==> final(self).table() is None,
            keys@.len() == 0 ==> res is Ok,
            old(self).table() matches Some(table) ==> (res is Ok <==> table.created || keys@.len()
                == 0),
            old(self).table() matches Some(table) ==> final(self).table() == Some(
                if table.created {
                    table.remove_many(keys.deep_view())
                } else {
                    table
                },
            ),
    ;

    /// Deletes every row. The table stays.
    fn clear(&mut self) -> (res: Result<(), StoreError>)
        ensures
            res matches Err(error) ==> Self::fails_with(Operation::Clear, error@),
            old(self).table() is None ==> final(self).table() is None,
            old(self).table() matches Some(table) ==> (res is Ok <==> table.created),
            old(self).table() matches Some(table) ==> final(self).table() == Some(
                if table.created {
                    table.clear()
                } else {
                    table
                },
            ),
    ;
}

} // verus!
