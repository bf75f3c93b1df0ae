//! The facade: the store that callers use.

use crate::errors::{KeyvError, StoreErrorView};
use crate::memory::MemoryStore;
use crate::store::{entries_view, Operation, Store, StoreModel, Table};
use crate::value::Value;
use vstd::prelude::*;

verus! {

/// The table name of a store that was given none.
pub const DEFAULT_NAMESPACE_NAME: &'static str = "localstore";

/// A key-value store over a backend. The only way to one is through
/// `try_new` or `default`, which create the table of the namespace.
///
/// Over a backend that answers for its rows (see [`Store`]) every operation
/// on a created table succeeds and changes the namespace as [`Table`] says.
/// Over any other backend the facade hands on what the backend returns. A
/// failure carries an error of the backend, one that the backend gives for
/// that operation.
pub struct Keyv<S: Store> {
    store: S,
}

impl<S: Store> Keyv<S> {
    /// The namespace behind the facade, where the backend answers for it.
    pub closed spec fn table(&self) -> Option<Table> {
        self.store.table()
    }

    /// The backend behind the facade.
    pub closed spec fn backend(&self) -> S {
        self.store
    }

    /// The facade over a backend whose table has been created.
    pub(crate) fn over(store: S) -> (keyv: Self)
        ensures
            keyv.backend() == store,
            keyv.table() == store.table(),
    {
        Keyv { store }
    }

    /// Creates the table of `store` if need be and wraps the store; fails
    /// where the backend cannot create it, with the backend's error. Rows
    /// that were there stay.
    pub fn try_new(store: S) -> (res: Result<Self, KeyvError>)
        ensures
            res matches Err(KeyvError::StoreError(error)) ==> S::fails_with(
                Operation::Initialize,
                error@,
            ),
            store.table() is Some ==> res is Ok,
            res matches Ok(keyv) ==> match store.table() {
                Some(table) => keyv.table() == Some(table.initialize()),
                None => keyv.table() is None,
            },
    {
        let mut store = store;
        match store.initialize() {
            Ok(()) => Ok(Self::over(store)),
            Err(error) => Err(KeyvError::StoreError(error)),
        }
    }

    /// Writes `value` under `key`, over what was there. A value that is not
    /// well formed is refused, with an error that comes for no other reason.
    pub fn set(&mut self, key: &str, value: Value) -> (res: Result<(), KeyvError>)
        ensures
            res matches Err(KeyvError::StoreError(error)) ==> S::fails_with(
                Operation::Write,
                error@,
            ),
            old(self).table() is None ==> final(self).table() is None,
            !value@.well_formed() ==> (res matches Err(KeyvError::StoreError(error)) && error@
                == StoreErrorView::malformed()),
            res matches Err(KeyvError::StoreError(error)) ==> (error@
                == StoreErrorView::malformed() ==> !value@.well_formed()),
            old(self).table() matches Some(table) ==> (res is Ok <==> table.created
                && value@.well_formed()),
            old(self).table() matches Some(table) ==> final(self).table() == Some(
                if table.created && value@.well_formed() {
                    table.set(key@, value@)
                } else {
                    table
                },
            ),
    {
        match self.store.set(key, value, None) {
            Ok(()) => Ok(()),
            Err(error) => Err(KeyvError::StoreError(error)),
        }
    }

    /// Writes `value` under `key` as `set` does. `ttl`, in seconds, is handed
    /// to the backend, which does not act on it: the entry does not expire.
    pub fn set_with_ttl(&mut self, key: &str, value: Value, ttl: u64) -> (res: Result<
        (),
        KeyvError,
    >)
        ensures
            res matches Err(KeyvError::StoreError(error)) ==> S::fails_with(
                Operation::Write,
                error@,
            ),
            old(self).table() is None ==> final(self).table() is None,
            !value@.well_formed() ==> (res matches Err(KeyvError::StoreError(error)) && error@
                == StoreErrorView::malformed()),
            res matches Err(KeyvError::StoreError(error)) ==> (error@
                == StoreErrorView::malformed() ==> !value@.well_formed()),
            old(self).table() matches Some(table) ==> (res is Ok <==> table.created
                && value@.well_formed()),
            old(self).table() matches Some(table) ==> final(self).table() == Some(
                if table.created && value@.well_formed() {
                    table.set(key@, value@)
                } else {
                    table
                },
            ),
    {
        match self.store.set(key, value, Some(ttl)) {
            Ok(()) => Ok(()),
            Err(error) => Err(KeyvError::StoreError(error)),
        }
    }

    /// Reads the document stored under `key`; `None` where there is none,
    /// which is no error. The document is what the stored text is read back
    /// as.
    pub fn get(&self, key: &str) -> (res: Result<Option<Value>, KeyvError>)
        ensures
            res matches Err(KeyvError::StoreError(error)) ==> S::fails_with(
                Operation::Read,
                error@,
            ),
            res matches Ok(Some(value)) ==> value@.read_back(),
            res matches Err(KeyvError::StoreError(error)) ==> error@ !is NotFound,
            self.table() matches Some(table) ==> (res is Ok <==> table.created),
            self.table() matches Some(table) ==> (res matches Ok(found) ==> match found {
                Some(value) => table.get(key@) == Some(value@),
                None => table.get(key@) is None,
            }),
    {
        match self.store.get(key) {
            Ok(found) => Ok(found),
            Err(error) => Err(KeyvError::StoreError(error)),
        }
    }

    /// Lists every entry, in no promised order. Every document is what the
    /// stored text is read back as.
    pub fn list(&self) -> (res: Result<Vec<StoreModel>, KeyvError>)
        ensures
            res matches Err(KeyvError::StoreError(error)) ==> S::fails_with(
                Operation::List,
                error@,
            ),
            res matches Ok(entries) ==> forall|i: int|
                0 <= i < entries.len() ==> (#[trigger] entries[i]).value@.read_back(),
            self.table() matches Some(table) ==> (res is Ok <==> table.created),
            self.table() matches Some(table) ==> (res matches Ok(entries) ==> table.lists(
                entries_view(entries@),
            )),
    {
        match self.store.list() {
            Ok(entries) => Ok(entries),
            Err(error) => Err(KeyvError::StoreError(error)),
        }
    }

    /// Deletes the entry of `key`, if there is one.
    pub fn remove(&mut self, key: &str) -> (res: Result<(), KeyvError>)
        ensures
            res matches Err(KeyvError::StoreError(error)) ==> S::fails_with(
                Operation::Remove,
                error@,
            ),
            old(self).table() is None ==> final(self).table() is None,
            old(self).table() matches Some(table) ==> (res is Ok <==> table.created),
            old(self).table() matches Some(table) ==> final(self).table() == Some(
                if table.created {
                    table.remove(key@)
                } else {
                    table
                },
            ),
    {
        match self.store.remove(key) {
            Ok(()) => Ok(()),
            Err(error) => Err(KeyvError::StoreError(error)),
        }
    }

    /// Deletes the entries of all of `keys`, or none of them where it fails.
    /// With no key there is nothing to do, and the call succeeds.
    pub fn remove_many(&mut self, keys: &[&str]) -> (res: Result<(), KeyvError>)
        ensures
            res matches Err(KeyvError::StoreError(error)) ==> S::fails_with(
                Operation::RemoveMany,
                error@,
            ),
            old(self).table() is None ==> final(self).table() is None,
            keys@.len() == 0 ==> res is Ok,
            old(self).table() matches Some(table) ==> (res is Ok <==> table.created || keys@.len()
                == 0),
            old(self).table() matches Some(table) ==> final(self).table() == Some(
                if table.created {
                    table.remove_many(keys.deep_view())
                } else {
                    table
                },
            ),
    {
        match self.store.remove_many(keys) {
            Ok(()) => Ok(()),
            Err(error) => Err(KeyvError::StoreError(error)),
        }
    }

    /// Deletes every entry.
    pub fn clear(&mut self) -> (res: Result<(), KeyvError>)
        ensures
            res matches Err(KeyvError::StoreError(error)) ==> S::fails_with(
                Operation::Clear,
                error@,
            ),
            old(self).table() is None ==> final(self).table() is None,
            old(self).table() matches Some(table) ==> (res is Ok <==> table.created),
            old(self).table() matches Some(table) ==> final(self).table() == Some(
                if table.created {
                    table.clear()
                } else {
                    table
                },
            ),
    {
        match self.store.clear() {
            Ok(()) => Ok(()),
            Err(error) => Err(KeyvError::StoreError(error)),
        }
    }
}

impl Default for Keyv<MemoryStore> {
    /// A store over an empty namespace in memory.
    fn default() -> (keyv: Self)
        ensures
            keyv.table() == Some(Table::absent().initialize()),
    {
        let mut store = MemoryStore::new();
        let _ = store.initialize();
        Keyv { store }
    }
}

} // verus!
