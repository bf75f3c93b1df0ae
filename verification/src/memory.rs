//! A backend that keeps its rows in memory.

use crate::errors::{StoreError, StoreErrorView};
use crate::store::{entries_view, Operation, Store, StoreModel, Table};
use crate::value::{Value, ValueView};
use vstd::prelude::*;
use vstd::string::*;

verus! {

/// One row: a key and the text stored under it.
struct Row {
    key: String,
    text: String,
}

/// No two rows have the same key.
spec fn distinct_keys(rows: Seq<Row>) -> bool {
    forall|i: int, j: int|
        0 <= i < j < rows.len() ==> (#[trigger] rows[i]).key@ != (#[trigger] rows[j]).key@
}

/// Whether some row has `key`.
spec fn holds_key(rows: Seq<Row>, key: Seq<char>) -> bool {
    exists|i: int| 0 <= i < rows.len() && (#[trigger] rows[i]).key@ == key
}

/// The place of a row that has `key`.
spec fn place_of(rows: Seq<Row>, key: Seq<char>) -> int {
    choose|i: int| 0 <= i < rows.len() && (#[trigger] rows[i]).key@ == key
}

/// The rows as a map from key to text.
spec fn rows_of(rows: Seq<Row>) -> Map<Seq<char>, Seq<char>> {
    Map::new(|key: Seq<char>| holds_key(rows, key), |key: Seq<char>| rows[place_of(rows, key)].text@)
}

/// The row at place `i` is the one that the map knows under its key.
proof fn lemma_row_at(rows: Seq<Row>, i: int)
    requires
        distinct_keys(rows),
        0 <= i < rows.len(),
    ensures
        rows_of(rows).contains_key(rows[i].key@),
        rows_of(rows)[rows[i].key@] == rows[i].text@,
        place_of(rows, rows[i].key@) == i,
{
    let key = rows[i].key@;
    assert(holds_key(rows, key));
    let p = place_of(rows, key);
    assert(rows[p].key@ == rows[i].key@);
}

/// Adding a row with a new key inserts it into the map.
proof fn lemma_push_row(rows: Seq<Row>, row: Row)
    requires
        distinct_keys(rows),
        !holds_key(rows, row.key@),
    ensures
        distinct_keys(rows.push(row)),
        rows_of(rows.push(row)) == rows_of(rows).insert(row.key@, row.text@),
{
    let longer = rows.push(row);
    assert forall|i: int, j: int| 0 <= i < j < longer.len() implies (#[trigger] longer[i]).key@ != (
    #[trigger] longer[j]).key@ by {
        if j == rows.len() {
            assert(longer[i] == rows[i]);
        } else {
            assert(longer[i] == rows[i] && longer[j] == rows[j]);
        }
    }
    assert forall|key: Seq<char>| holds_key(longer, key) <==> (holds_key(rows, key) || key
        == row.key@) by {
        if holds_key(rows, key) {
            let i = place_of(rows, key);
            assert(longer[i] == rows[i]);
        }
        if key == row.key@ {
            assert(longer[rows.len() as int] == row);
        }
        if holds_key(longer, key) {
            let i = place_of(longer, key);
            if i < rows.len() {
                assert(longer[i] == rows[i]);
            }
        }
    }
    assert forall|key: Seq<char>| holds_key(longer, key) implies rows_of(longer)[key] == rows_of(
        rows,
    ).insert(row.key@, row.text@)[key] by {
        if key == row.key@ {
            assert(longer[rows.len() as int] == row);
            lemma_row_at(longer, rows.len() as int);
        } else {
            let i = place_of(rows, key);
            assert(longer[i] == rows[i]);
            lemma_row_at(longer, i);
        }
    }
    assert(rows_of(longer) =~= rows_of(rows).insert(row.key@, row.text@));
}

/// Replacing a row by one with the same key overwrites its text in the map.
proof fn lemma_replace_row(rows: Seq<Row>, i: int, row: Row)
    requires
        distinct_keys(rows),
        0 <= i < rows.len(),
        row.key@ == rows[i].key@,
    ensures
        distinct_keys(rows.update(i, row)),
        rows_of(rows.update(i, row)) == rows_of(rows).insert(row.key@, row.text@),
{
    let changed = rows.update(i, row);
    assert forall|a: int, b: int| 0 <= a < b < changed.len() implies (#[trigger] changed[a]).key@
        != (#[trigger] changed[b]).key@ by {
        assert(changed[a].key@ == rows[a].key@);
        assert(changed[b].key@ == rows[b].key@);
    }
    assert forall|key: Seq<char>| holds_key(changed, key) <==> holds_key(rows, key) by {
        if holds_key(rows, key) {
            let p = place_of(rows, key);
            assert(changed[p].key@ == rows[p].key@);
        }
        if holds_key(changed, key) {
            let p = place_of(changed, key);
            assert(changed[p].key@ == rows[p].key@);
        }
    }
    assert(holds_key(rows, row.key@));
    assert forall|key: Seq<char>| holds_key(changed, key) implies rows_of(changed)[key]
        == rows_of(rows).insert(row.key@, row.text@)[key] by {
        let p = place_of(rows, key);
        assert(changed[p].key@ == rows[p].key@);
        lemma_row_at(changed, p);
        lemma_row_at(rows, p);
        if key != row.key@ {
            assert(p != i);
        }
    }
    assert(rows_of(changed) =~= rows_of(rows).insert(row.key@, row.text@));
}

/// Taking a row out removes its key from the map.
proof fn lemma_remove_row(rows: Seq<Row>, i: int)
    requires
        distinct_keys(rows),
        0 <= i < rows.len(),
    ensures
        distinct_keys(rows.remove(i)),
        rows_of(rows.remove(i)) == rows_of(rows).remove(rows[i].key@),
{
    let shorter = rows.remove(i);
    let gone = rows[i].key@;
    assert forall|a: int| 0 <= a < shorter.len() implies #[trigger] shorter[a] == rows[if a < i {
        a
    } else {
        a + 1
    }] by {}
    assert forall|a: int, b: int| 0 <= a < b < shorter.len() implies (#[trigger] shorter[a]).key@
        != (#[trigger] shorter[b]).key@ by {
        let a0 = if a < i { a } else { a + 1 };
        let b0 = if b < i { b } else { b + 1 };
        assert(shorter[a] == rows[a0] && shorter[b] == rows[b0]);
    }
    assert forall|key: Seq<char>| holds_key(shorter, key) <==> (holds_key(rows, key) && key
        != gone) by {
        if holds_key(shorter, key) {
            let p = place_of(shorter, key);
            let origin = if p < i { p } else { p + 1 };
            assert(shorter[p] == rows[origin]);
            assert(rows[origin].key@ == key);
            if key == gone {
                if origin < i {
                    assert(rows[origin].key@ != rows[i].key@);
                } else {
                    assert(rows[i].key@ != rows[origin].key@);
                }
            }
        }
        if holds_key(rows, key) && key != gone {
            let p = place_of(rows, key);
            let q = if p < i { p } else { p - 1 };
            assert(shorter[q] == rows[p]);
        }
    }
    assert forall|key: Seq<char>| holds_key(shorter, key) implies rows_of(shorter)[key]
        == rows_of(rows).remove(gone)[key] by {
        let p = place_of(shorter, key);
        let origin = if p < i { p } else { p + 1 };
        assert(shorter[p] == rows[origin]);
        lemma_row_at(shorter, p);
        lemma_row_at(rows, origin);
    }
    assert(rows_of(shorter) =~= rows_of(rows).remove(gone));
}

/// A store whose namespace lives in memory and ends with the value.
///
/// The table must be created by `initialize` before anything is read or
/// written, as with any other backend.
pub struct MemoryStore {
    created: bool,
    rows: Vec<Row>,
}

impl MemoryStore {
    #[verifier::type_invariant]
    spec fn well_formed(&self) -> bool {
        distinct_keys(self.rows@)
    }

    /// A store whose table has not been created yet.
    pub fn new() -> (store: MemoryStore)
        ensures
            store.table() == Some(Table::absent()),
    {
        let store = MemoryStore { created: false, rows: Vec::new() };
        assert(rows_of(store.rows@) =~= Map::empty());
        store
    }

    /// The place of the row of `key`, if there is one.
    fn position(&self, key: &str) -> (found: Option<usize>)
        ensures
            match found {
                Some(i) => i < self.rows.len() && self.rows[i as int].key@ == key@,
                None => !holds_key(self.rows@, key@),
            },
    {
        let wanted = String::from_str(key);
        let mut i: usize = 0;
        while i < self.rows.len()
            invariant
                i <= self.rows.len(),
                wanted@ == key@,
                forall|j: int| 0 <= j < i ==> (#[trigger] self.rows[j]).key@ != key@,
            decreases self.rows.len() - i,
        {
            if self.rows[i].key == wanted {
                return Some(i);
            }
            i += 1;
        }
        None
    }

    /// The error of an operation on a table that has not been created.
    fn no_table(context: &str) -> (error: StoreError)
        ensures
            error@ == StoreErrorView::query(context@, "the table has not been created"@),
    {
        StoreError::query(context, "the table has not been created")
    }
}

impl Store for MemoryStore {
    closed spec fn table(&self) -> Option<Table> {
        Some(Table { created: self.created, rows: rows_of(self.rows@) })
    }

    /// A write of a value that is not well formed fails with the error of
    /// such a value; every operation but `initialize` fails on a table that
    /// has not been created, and says so.
    open spec fn fails_with(operation: Operation, error: StoreErrorView) -> bool {
        ||| operation is Write && error == StoreErrorView::malformed()
        ||| operation !is Initialize && error == StoreErrorView::query(
            operation.context(),
            "the table has not been created"@,
        )
    }

    fn initialize(&mut self) -> (res: Result<(), StoreError>) {
        proof {
            use_type_invariant(&*self);
        }
        self.created = true;
        Ok(())
    }

    fn get(&self, key: &str) -> (res: Result<Option<Value>, StoreError>) {
        proof {
            use_type_invariant(self);
        }
        if !self.created {
            return Err(Self::no_table("Failed to fetch the value"));
        }
        match self.position(key) {
            Some(i) => {
                proof {
                    lemma_row_at(self.rows@, i as int);
                }
                Ok(Some(Value::from_stored_text(self.rows[i].text.clone())))
            },
            None => Ok(None),
        }
    }

    fn list(&self) -> (res: Result<Vec<StoreModel>, StoreError>) {
        proof {
            use_type_invariant(self);
        }
        if !self.created {
            return Err(Self::no_table("Failed to list the values"));
        }
        let mut entries: Vec<StoreModel> = Vec::new();
        let mut i: usize = 0;
        while i < self.rows.len()
            invariant
                i <= self.rows.len(),
                entries.len() == i,
                forall|j: int|
                    0 <= j < i ==> {
                        &&& (#[trigger] entries[j]).key@ == self.rows[j].key@
                        &&& entries[j].value@ == ValueView::from_stored_text(self.rows[j].text@)
                        &&& entries[j].value@.read_back()
                    },
            decreases self.rows.len() - i,
        {
            entries.push(
                StoreModel {
                    key: self.rows[i].key.clone(),
                    value: Value::from_stored_text(self.rows[i].text.clone()),
                },
            );
            i += 1;
        }
        proof {
            let table = self.table().unwrap();
            let listed = entries_view(entries@);
            assert forall|j: int| 0 <= j < listed.len() implies table.get(
                #[trigger] listed[j].key,
            ) == Some(listed[j].value) by {
                assert(listed[j] == entries[j]@);
                lemma_row_at(self.rows@, j);
            }
            assert forall|a: int, b: int| 0 <= a < b < listed.len() implies #[trigger] listed[a].key
                != #[trigger] listed[b].key by {
                assert(listed[a] == entries[a]@ && listed[b] == entries[b]@);
                assert(self.rows[a].key@ != self.rows[b].key@);
            }
            assert forall|key: Seq<char>| #[trigger]
                table.rows.contains_key(key) implies exists|j: int|
                0 <= j < listed.len() && #[trigger] listed[j].key == key by {
                assert(holds_key(self.rows@, key));
                let p = place_of(self.rows@, key);
                assert(self.rows[p].key@ == key);
                assert(listed[p] == entries[p]@);
                assert(listed[p].key == key);
            }
        }
        Ok(entries)
    }

    fn set(&mut self, key: &str, value: Value, ttl: Option<u64>) -> (res: Result<(), StoreError>) {
        proof {
            use_type_invariant(&*self);
        }
        if !value.is_well_formed() {
            return Err(StoreError::malformed());
        }
        if !self.created {
            return Err(Self::no_table("Failed to set the value"));
        }
        let row = Row { key: String::from_str(key), text: value.stored_text() };
        let found = self.position(key);
        let mut rows: Vec<Row> = Vec::new();
        core::mem::swap(&mut self.rows, &mut rows);
        match found {
            Some(i) => {
                proof {
                    lemma_replace_row(rows@, i as int, row);
                }
                rows.set(i, row);
            },
            None => {
                proof {
                    lemma_push_row(rows@, row);
                }
                rows.push(row);
            },
        }
        self.rows = rows;
        Ok(())
    }

    fn remove(&mut self, key: &str) -> (res: Result<(), StoreError>) {
        proof {
            use_type_invariant(&*self);
        }
        if !self.created {
            return Err(Self::no_table("Failed to remove the key"));
        }
        match self.position(key) {
            Some(i) => {
                let mut rows: Vec<Row> = Vec::new();
                core::mem::swap(&mut self.rows, &mut rows);
                proof {
                    lemma_remove_row(rows@, i as int);
                }
                rows.remove(i);
                self.rows = rows;
            },
            None => {
                assert(rows_of(self.rows@).remove(key@) =~= rows_of(self.rows@));
            },
        }
        Ok(())
    }

    fn remove_many(&mut self, keys: &[&str]) -> (res: Result<(), StoreError>) {
        proof {
            use_type_invariant(&*self);
        }
        if keys.len() == 0 {
            assert(rows_of(self.rows@).remove_keys(keys.deep_view().to_set()) =~= rows_of(
                self.rows@,
            ));
            return Ok(());
        }
        if !self.created {
            return Err(Self::no_table("Failed to remove the keys"));
        }
        let ghost before = rows_of(self.rows@);
        let mut k: usize = 0;
        assert(before.remove_keys(keys.deep_view().take(0).to_set()) =~= before);
        while k < keys.len()
            invariant
                k <= keys.len(),
                self.created,
                distinct_keys(self.rows@),
                rows_of(self.rows@) == before.remove_keys(
                    keys.deep_view().take(k as int).to_set(),
                ),
            decreases keys.len() - k,
        {
            let ghost so_far = rows_of(self.rows@);
            match self.position(keys[k]) {
                Some(i) => {
                    let mut rows: Vec<Row> = Vec::new();
                    core::mem::swap(&mut self.rows, &mut rows);
                    proof {
                        lemma_remove_row(rows@, i as int);
                    }
                    rows.remove(i);
                    self.rows = rows;
                },
                None => {
                    assert(so_far.remove(keys[k as int]@) =~= so_far);
                },
            }
            proof {
                let all = keys.deep_view();
                assert(all[k as int] == keys[k as int]@);
                assert(all.take(k + 1) =~= all.take(k as int).push(all[k as int]));
                assert(all.take(k + 1).to_set() =~= all.take(k as int).to_set().insert(
                    all[k as int],
                )) by {
                    all.take(k as int).lemma_push_to_set_commute(all[k as int]);
                }
                assert(so_far.remove(all[k as int]) =~= before.remove_keys(
                    all.take(k + 1).to_set(),
                ));
            }
            k += 1;
        }
        assert(keys.deep_view().take(keys.len() as int) =~= keys.deep_view());
        Ok(())
    }

    fn clear(&mut self) -> (res: Result<(), StoreError>) {
        if !self.created {
            return Err(Self::no_table("Failed to clear the table"));
        }
        self.rows = Vec::new();
        assert(rows_of(self.rows@) =~= Map::empty());
        Ok(())
    }
}

} // verus!
