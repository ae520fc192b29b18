//! The todos table as a contract sees it, and what each of the four
//! statements does to it.

use vstd::prelude::*;
use crate::entity::TodoView;

verus! {

/// The todos table as a contract sees it.
pub struct Table {
    /// The rows, in the order in which a select returns them.
    pub rows: Seq<TodoView>,
    /// The last id that the store has given out; 0 before the first insert.
    pub last_id: int,
}

/// The rows that a delete by `id` leaves in place.
pub open spec fn other_than(id: int) -> spec_fn(TodoView) -> bool {
    |row: TodoView| row.id != id
}

impl Table {
    /// The table before anything was inserted.
    pub open spec fn empty() -> Table {
        Table { rows: Seq::empty(), last_id: 0 }
    }

    /// Every row has an id that the store has given out, and no two rows
    /// share one.
    pub open spec fn wf(self) -> bool {
        &&& 0 <= self.last_id <= i32::MAX
        &&& forall|i: int|
            0 <= i < self.rows.len() ==> 1 <= (#[trigger] self.rows[i]).id <= self.last_id
        &&& forall|i: int, j: int|
            0 <= i < j < self.rows.len() ==> (#[trigger] self.rows[i]).id != (
            #[trigger] self.rows[j]).id
    }

    /// Whether some row has the id `id`.
    pub open spec fn has_id(self, id: int) -> bool {
        exists|i: int| 0 <= i < self.rows.len() && (#[trigger] self.rows[i]).id == id
    }

    /// The row that a select by `id` returns, if there is one.
    pub open spec fn get(self, id: int) -> Option<TodoView> {
        if self.has_id(id) {
            let i = choose|i: int| 0 <= i < self.rows.len() && (#[trigger] self.rows[i]).id == id;
            Some(self.rows[i])
        } else {
            None
        }
    }

    /// Whether the store still has an id to give out.
    pub open spec fn can_insert(self) -> bool {
        self.last_id < i32::MAX
    }

    /// The row that the next insert of `title` and `body` creates.
    pub open spec fn next_row(self, title: Seq<char>, body: Seq<char>) -> TodoView {
        TodoView { id: self.last_id + 1, title, body }
    }

    /// The table after an insert of `title` and `body`.
    pub open spec fn insert(self, title: Seq<char>, body: Seq<char>) -> Table {
        Table { rows: self.rows.push(self.next_row(title, body)), last_id: self.last_id + 1 }
    }

    /// The table after a delete by `id`.
    pub open spec fn delete(self, id: int) -> Table {
        Table { rows: self.rows.filter(other_than(id)), last_id: self.last_id }
    }

    /// The number of rows that a delete by `id` removes.
    pub open spec fn deleted_by(self, id: int) -> nat {
        (self.rows.len() - self.delete(id).rows.len()) as nat
    }
}

/// A delete by an id that no row has leaves every row in place.
pub proof fn lemma_delete_absent(rows: Seq<TodoView>, id: int)
    requires
        forall|j: int| 0 <= j < rows.len() ==> (#[trigger] rows[j]).id != id,
    ensures
        rows.filter(other_than(id)) == rows,
    decreases rows.len(),
{
    reveal(Seq::filter);
    if rows.len() > 0 {
        lemma_delete_absent(rows.drop_last(), id);
        assert(other_than(id)(rows.last()));
        assert(rows.drop_last().push(rows.last()) =~= rows);
    }
}

/// A delete by an id that the row at `i` has, and no other row, removes that
/// row and leaves the others in their order.
pub proof fn lemma_delete_present(rows: Seq<TodoView>, i: int, id: int)
    requires
        0 <= i < rows.len(),
        rows[i].id == id,
        forall|j: int| 0 <= j < rows.len() && j != i ==> (#[trigger] rows[j]).id != id,
    ensures
        rows.filter(other_than(id)) == rows.remove(i),
    decreases rows.len(),
{
    reveal(Seq::filter);
    if i == rows.len() - 1 {
        lemma_delete_absent(rows.drop_last(), id);
        assert(!other_than(id)(rows.last()));
        assert(rows.remove(i) =~= rows.drop_last());
    } else {
        lemma_delete_present(rows.drop_last(), i, id);
        assert(other_than(id)(rows.last()));
        assert(rows.drop_last().remove(i).push(rows.last()) =~= rows.remove(i));
    }
}

/// In a well-formed table a select by the id of a row returns that row.
pub proof fn lemma_get_row(table: Table, i: int)
    requires
        table.wf(),
        0 <= i < table.rows.len(),
    ensures
        table.has_id(table.rows[i].id),
        table.get(table.rows[i].id) == Some(table.rows[i]),
{
    let id = table.rows[i].id;
    assert(table.has_id(id));
    let k = choose|k: int| 0 <= k < table.rows.len() && (#[trigger] table.rows[k]).id == id;
    assert(k == i);
}

/// An insert adds exactly one row. The new row holds the title and the body
/// that were inserted, under an id that no row had; a select by that id
/// returns it; the rows that were there stay as they were.
pub proof fn lemma_insert_adds_one_row(table: Table, title: Seq<char>, body: Seq<char>)
    requires
        table.wf(),
        table.can_insert(),
    ensures
        ({
            let after = table.insert(title, body);
            let row = table.next_row(title, body);
            &&& after.wf()
            &&& row.title == title
            &&& row.body == body
            &&& !table.has_id(row.id)
            &&& after.rows.len() == table.rows.len() + 1
            &&& after.rows.to_multiset() == table.rows.to_multiset().insert(row)
            &&& after.get(row.id) == Some(row)
            &&& forall|other: int| other != row.id ==> after.get(other) == table.get(other)
        }),
{
    let after = table.insert(title, body);
    let row = table.next_row(title, body);
    let n = table.rows.len() as int;
    assert(after.rows[n] == row);
    assert(after.wf());
    vstd::seq_lib::to_multiset_build(table.rows, row);
    lemma_get_row(after, n);
    assert forall|other: int| other != row.id implies after.get(other) == table.get(other) by {
        if table.has_id(other) {
            let k = choose|k: int|
                0 <= k < table.rows.len() && (#[trigger] table.rows[k]).id == other;
            assert(after.rows[k] == table.rows[k]);
            lemma_get_row(after, k);
        } else {
            if after.has_id(other) {
                let k = choose|k: int|
                    0 <= k < after.rows.len() && (#[trigger] after.rows[k]).id == other;
                assert(k < n);
                assert(table.rows[k].id == other);
            }
        }
    }
}

/// Two inserts, one after the other, give their rows different ids, whatever
/// is inserted, and both rows are in the table afterwards.
pub proof fn lemma_inserts_get_distinct_ids(
    table: Table,
    first: (Seq<char>, Seq<char>),
    second: (Seq<char>, Seq<char>),
)
    requires
        table.wf(),
        table.can_insert(),
        table.insert(first.0, first.1).can_insert(),
    ensures
        ({
            let once = table.insert(first.0, first.1);
            let twice = once.insert(second.0, second.1);
            let first_row = table.next_row(first.0, first.1);
            let second_row = once.next_row(second.0, second.1);
            &&& twice.wf()
            &&& first_row.id != second_row.id
            &&& twice.get(first_row.id) == Some(first_row)
            &&& twice.get(second_row.id) == Some(second_row)
        }),
{
    let once = table.insert(first.0, first.1);
    lemma_insert_adds_one_row(table, first.0, first.1);
    lemma_insert_adds_one_row(once, second.0, second.1);
}

/// An id that was given out is never given out again, not even after its row
/// was deleted: the row of a later insert has an id above every id in use.
pub proof fn lemma_ids_are_not_reused(table: Table, id: int, title: Seq<char>, body: Seq<char>)
    requires
        table.wf(),
        table.has_id(id),
    ensures
        table.delete(id).last_id == table.last_id,
        table.delete(id).next_row(title, body).id > id,
{
}

/// A delete keeps the table well formed and leaves no row with the id. It
/// removes one row if a row had the id, and none otherwise; every other row
/// stays as it was.
pub proof fn lemma_delete_removes_that_row(table: Table, id: int)
    requires
        table.wf(),
    ensures
        ({
            let after = table.delete(id);
            &&& after.wf()
            &&& !after.has_id(id)
            &&& table.deleted_by(id) == (if table.has_id(id) { 1nat } else { 0nat })
            &&& table.get(id) matches Some(row) ==> after.rows.to_multiset()
                == table.rows.to_multiset().remove(row)
            &&& !table.has_id(id) ==> after == table
            &&& forall|other: int| other != id ==> after.get(other) == table.get(other)
        }),
{
    let after = table.delete(id);
    if table.has_id(id) {
        let i = choose|i: int| 0 <= i < table.rows.len() && (#[trigger] table.rows[i]).id == id;
        assert forall|j: int| 0 <= j < table.rows.len() && j != i implies (
        #[trigger] table.rows[j]).id != id by {
            assert(table.rows[j].id != table.rows[i].id);
        }
        lemma_delete_present(table.rows, i, id);
        assert(after.rows == table.rows.remove(i));
        assert forall|j: int| 0 <= j < after.rows.len() implies #[trigger] after.rows[j]
            == table.rows[j + (if j < i { 0int } else { 1int })] by {}
        assert(after.wf());
        assert(!after.has_id(id));
        vstd::seq_lib::to_multiset_remove(table.rows, i);
        assert forall|other: int| other != id implies after.get(other) == table.get(other) by {
            if table.has_id(other) {
                let k = choose|k: int|
                    0 <= k < table.rows.len() && (#[trigger] table.rows[k]).id == other;
                let shifted = if k < i { k } else { k - 1 };
                assert(after.rows[shifted] == table.rows[k]);
                lemma_get_row(after, shifted);
            } else {
                if after.has_id(other) {
                    let k = choose|k: int|
                        0 <= k < after.rows.len() && (#[trigger] after.rows[k]).id == other;
                    let source = if k < i { k } else { k + 1 };
                    assert(table.rows[source].id == other);
                }
            }
        }
    } else {
        assert forall|j: int| 0 <= j < table.rows.len() implies (#[trigger] table.rows[j]).id
            != id by {}
        lemma_delete_absent(table.rows, id);
    }
}

/// A second delete by the same id removes nothing and changes nothing.
pub proof fn lemma_second_delete_removes_nothing(table: Table, id: int)
    requires
        table.wf(),
    ensures
        table.delete(id).deleted_by(id) == 0,
        table.delete(id).delete(id) == table.delete(id),
{
    lemma_delete_removes_that_row(table, id);
    lemma_delete_removes_that_row(table.delete(id), id);
}

} // verus!
