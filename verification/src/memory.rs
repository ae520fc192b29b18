//! A store that keeps the table in memory. It does to its rows what the four
//! statements do to the table, so it can stand in for the database.

use vstd::prelude::*;
use crate::entity::Todo;
use crate::repository::{QueryResult, RepoError};
use crate::table::{lemma_delete_absent, lemma_delete_present, Table};

verus! {

/// The todos table, held in memory.
pub struct MemoryStore {
    rows: Vec<Todo>,
    last_id: i32,
}

impl View for MemoryStore {
    type V = Table;

    closed spec fn view(&self) -> Table {
        Table { rows: self.rows.deep_view(), last_id: self.last_id as int }
    }
}

impl MemoryStore {
    /// A store with no rows, which has given out no id yet.
    pub fn new() -> (store: MemoryStore)
        ensures
            store@ == Table::empty(),
            store@.wf(),
    {
        let store = MemoryStore { rows: Vec::new(), last_id: 0 };
        assert(store@.rows =~= Table::empty().rows);
        store
    }

    /// A store that holds the rows `rows` and has given out the ids up to
    /// `last_id`. There is none unless every row has an id between 1 and
    /// `last_id`, and no two rows share one.
    pub fn from_rows(rows: Vec<Todo>, last_id: i32) -> (store: Option<MemoryStore>)
        ensures
            match store {
                Some(store) => store@.wf() && store@ == (Table {
                    rows: rows.deep_view(),
                    last_id: last_id as int,
                }),
                None => !(Table { rows: rows.deep_view(), last_id: last_id as int }).wf(),
            },
    {
        let ghost table = Table { rows: rows.deep_view(), last_id: last_id as int };
        if last_id < 0 {
            return None;
        }
        let mut i: usize = 0;
        while i < rows.len()
            invariant
                i <= rows.len(),
                0 <= last_id,
                table == (Table { rows: rows.deep_view(), last_id: last_id as int }),
                forall|a: int| 0 <= a < i ==> 1 <= (#[trigger] rows[a]).id <= last_id,
                forall|a: int, b: int|
                    0 <= a < b < i ==> (#[trigger] rows[a]).id != (#[trigger] rows[b]).id,
            decreases rows.len() - i,
        {
            if rows[i].id < 1 || rows[i].id > last_id {
                proof {
                    assert(table.rows[i as int].id == rows[i as int].id);
                }
                return None;
            }
            let mut j: usize = 0;
            while j < i
                invariant
                    j <= i < rows.len(),
                    table == (Table { rows: rows.deep_view(), last_id: last_id as int }),
                    forall|a: int| 0 <= a < j ==> (#[trigger] rows[a]).id != rows[i as int].id,
                decreases i - j,
            {
                if rows[j].id == rows[i].id {
                    proof {
                        assert(table.rows[j as int].id == table.rows[i as int].id);
                    }
                    return None;
                }
                j += 1;
            }
            i += 1;
        }
        let store = MemoryStore { rows, last_id };
        proof {
            assert(store@.rows =~= table.rows);
            assert forall|a: int| 0 <= a < table.rows.len() implies 1 <= (
            #[trigger] table.rows[a]).id <= table.last_id by {
                assert(1 <= rows[a].id <= last_id);
            }
            assert forall|a: int, b: int| 0 <= a < b < table.rows.len() implies (
            #[trigger] table.rows[a]).id != (#[trigger] table.rows[b]).id by {
                assert(rows[a].id != rows[b].id);
            }
        }
        Some(store)
    }

    /// Selects every row. An empty table gives an empty list, not a failure.
    pub fn list_all(&self) -> (outcome: Result<Vec<Todo>, RepoError>)
        ensures
            outcome matches Ok(rows) && rows.deep_view() == self@.rows,
    {
        let mut rows: Vec<Todo> = Vec::new();
        let mut i: usize = 0;
        while i < self.rows.len()
            invariant
                i <= self.rows.len(),
                rows.len() == i,
                forall|j: int| 0 <= j < i ==> rows[j] == self.rows[j],
            decreases self.rows.len() - i,
        {
            rows.push(self.rows[i].clone());
            i += 1;
        }
        assert(rows.deep_view() =~= self.rows.deep_view());
        Ok(rows)
    }

    /// Selects the row with the id `id`.
    pub fn get_by_id(&self, id: i32) -> (outcome: Result<Todo, RepoError>)
        requires
            self@.wf(),
        ensures
            match outcome {
                Ok(todo) => self@.get(id as int) == Some(todo@),
                Err(fault) => fault == RepoError::NotFound && self@.get(id as int) is None,
            },
    {
        let mut i: usize = 0;
        while i < self.rows.len()
            invariant
                i <= self.rows.len(),
                self@.wf(),
                forall|j: int| 0 <= j < i ==> self.rows[j].id != id,
            decreases self.rows.len() - i,
        {
            if self.rows[i].id == id {
                let todo = self.rows[i].clone();
                proof {
                    let table = self@;
                    assert(table.rows[i as int] == todo@);
                    assert(table.has_id(id as int));
                    let k = choose|k: int|
                        0 <= k < table.rows.len() && (#[trigger] table.rows[k]).id == id;
                    assert(k == i);
                }
                return Ok(todo);
            }
            i += 1;
        }
        proof {
            let table = self@;
            assert forall|j: int| 0 <= j < table.rows.len() implies (#[trigger] table.rows[j]).id
                != id by {
                assert(self.rows[j].id != id);
            }
        }
        Err(RepoError::NotFound)
    }

    /// Inserts a row with a fresh id, one above the last that was given out.
    /// When the ids are used up the insert fails and the table stays as it is.
    pub fn create(&mut self, title: String, body: String) -> (outcome: Result<
        QueryResult,
        RepoError,
    >)
        requires
            old(self)@.wf(),
        ensures
            final(self)@.wf(),
            old(self)@.can_insert() ==> outcome == Ok::<QueryResult, RepoError>(
                QueryResult { rows_affected: 1 },
            ) && final(self)@ == old(self)@.insert(title@, body@),
            !old(self)@.can_insert() ==> outcome == Err::<QueryResult, RepoError>(
                RepoError::StoreError,
            ) && final(self)@ == old(self)@,
    {
        if self.last_id == i32::MAX {
            return Err(RepoError::StoreError);
        }
        let id = self.last_id + 1;
        let ghost before = self@;
        self.last_id = id;
        self.rows.push(Todo { id, title, body });
        proof {
            assert(self@.rows =~= before.insert(title@, body@).rows);
        }
        Ok(QueryResult { rows_affected: 1 })
    }

    /// Deletes the rows with the id `id` and says how many there were. A
    /// delete that finds no row is no failure.
    pub fn delete_by_id(&mut self, id: i32) -> (outcome: Result<QueryResult, RepoError>)
        requires
            old(self)@.wf(),
        ensures
            final(self)@.wf(),
            final(self)@ == old(self)@.delete(id as int),
            outcome matches Ok(result) && result.rows_affected == old(self)@.deleted_by(id as int),
    {
        let ghost before = self@;
        let mut i: usize = 0;
        while i < self.rows.len()
            invariant
                i <= self.rows.len(),
                self@ == before,
                before == old(self)@,
                before.wf(),
                forall|j: int| 0 <= j < i ==> self.rows[j].id != id,
            decreases self.rows.len() - i,
        {
            if self.rows[i].id == id {
                self.rows.remove(i);
                proof {
                    assert(before.rows[i as int].id == id);
                    assert forall|j: int| 0 <= j < before.rows.len() && j != i implies (
                    #[trigger] before.rows[j]).id != id by {
                        assert(before.rows[j].id != before.rows[i as int].id);
                    }
                    lemma_delete_present(before.rows, i as int, id as int);
                    assert(self@.rows =~= before.rows.remove(i as int));
                }
                return Ok(QueryResult { rows_affected: 1 });
            }
            i += 1;
        }
        proof {
            assert forall|j: int| 0 <= j < before.rows.len() implies (#[trigger] before.rows[j]).id
                != id by {
                assert(self.rows[j].id != id);
            }
            lemma_delete_absent(before.rows, id as int);
        }
        Ok(QueryResult { rows_affected: 0 })
    }
}

} // verus!
