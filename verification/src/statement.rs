//! The statements that the repository sends to the store.
//!
//! The text of a statement is fixed. What a request brings (an id, a title, a
//! body) never becomes part of the text: it travels beside it as a bound
//! parameter, one for each placeholder.

use vstd::prelude::*;
use vstd::string::*;

verus! {

/// A value that is bound to a placeholder.
#[derive(Debug, PartialEq, Eq)]
pub enum SqlValue {
    Int(i32),
    BigInt(i64),
    Text(String),
}

/// What a [`SqlValue`] is to a contract.
pub enum SqlValueView {
    Int(int),
    BigInt(int),
    Text(Seq<char>),
}

impl View for SqlValue {
    type V = SqlValueView;

    open spec fn view(&self) -> SqlValueView {
        match self {
            SqlValue::Int(value) => SqlValueView::Int(*value as int),
            SqlValue::BigInt(value) => SqlValueView::BigInt(*value as int),
            SqlValue::Text(value) => SqlValueView::Text(value@),
        }
    }
}

impl DeepView for SqlValue {
    type V = SqlValueView;

    open spec fn deep_view(&self) -> SqlValueView {
        self@
    }
}

/// A statement: its text, and the values for its placeholders in their order.
#[derive(Debug, PartialEq, Eq)]
pub struct Statement {
    pub sql: &'static str,
    pub params: Vec<SqlValue>,
}

/// What a [`Statement`] is to a contract.
pub struct StatementView {
    pub sql: Seq<char>,
    pub params: Seq<SqlValueView>,
}

impl View for Statement {
    type V = StatementView;

    open spec fn view(&self) -> StatementView {
        StatementView { sql: self.sql@, params: self.params.deep_view() }
    }
}

/// The number of placeholders in the text of a statement.
pub open spec fn placeholders(sql: Seq<char>) -> nat
    decreases sql.len(),
{
    if sql.len() == 0 {
        0
    } else {
        placeholders(sql.drop_last()) + (if sql.last() == '$' { 1nat } else { 0nat })
    }
}

impl StatementView {
    /// The statement has a value for each of its placeholders, and no more.
    pub open spec fn wf(self) -> bool {
        placeholders(self.sql) == self.params.len()
    }
}

/// Selects every row.
pub const SELECT_ALL: &'static str = "SELECT * FROM todos";

/// Selects the row with the id `$1`.
pub const SELECT_BY_ID: &'static str = "SELECT * FROM todos WHERE id = $1";

/// Inserts a row with the title `$1` and the body `$2`.
pub const INSERT: &'static str = "INSERT INTO todos (title, body) VALUES ($1, $2)";

/// Deletes the rows with the id `$1`.
pub const DELETE_BY_ID: &'static str = "DELETE FROM todos WHERE id = $1";

/// Asks the store to send `$1` back.
pub const PROBE: &'static str = "SELECT $1";

/// The value that the probe sends at startup.
pub const PROBE_VALUE: i64 = 150;

/// The placeholders of a text are those of its parts.
pub proof fn lemma_placeholders_concat(a: Seq<char>, b: Seq<char>)
    ensures
        placeholders(a + b) == placeholders(a) + placeholders(b),
    decreases b.len(),
{
    if b.len() == 0 {
        assert(a + b =~= a);
    } else {
        lemma_placeholders_concat(a, b.drop_last());
        assert((a + b).drop_last() =~= a + b.drop_last());
    }
}

/// A text without a dollar sign has no placeholder.
pub proof fn lemma_no_placeholders(text: Seq<char>)
    requires
        forall|i: int| 0 <= i < text.len() ==> text[i] != '$',
    ensures
        placeholders(text) == 0,
    decreases text.len(),
{
    if text.len() > 0 {
        lemma_no_placeholders(text.drop_last());
    }
}

proof fn lemma_one_placeholder(before: Seq<char>, after: Seq<char>)
    requires
        forall|i: int| 0 <= i < before.len() ==> before[i] != '$',
        forall|i: int| 0 <= i < after.len() ==> after[i] != '$',
    ensures
        placeholders(before + seq!['$'] + after) == 1,
{
    let dollar = seq!['$'];
    lemma_no_placeholders(before);
    lemma_no_placeholders(after);
    assert(placeholders(dollar) == 1) by {
        assert(dollar.drop_last() =~= Seq::<char>::empty());
        reveal_with_fuel(placeholders, 2);
    }
    lemma_placeholders_concat(before, dollar);
    lemma_placeholders_concat(before + dollar, after);
}

/// The statement that selects every row.
pub fn select_all() -> (statement: Statement)
    ensures
        statement@ == (StatementView { sql: SELECT_ALL@, params: seq![] }),
        statement@.wf(),
{
    let statement = Statement { sql: SELECT_ALL, params: Vec::new() };
    proof {
        reveal_strlit("SELECT * FROM todos");
        lemma_no_placeholders(SELECT_ALL@);
        assert(statement@.params =~= seq![]);
    }
    statement
}

/// The statement that selects the row with the id `id`.
pub fn select_by_id(id: i32) -> (statement: Statement)
    ensures
        statement@ == (StatementView {
            sql: SELECT_BY_ID@,
            params: seq![SqlValueView::Int(id as int)],
        }),
        statement@.wf(),
{
    let mut params: Vec<SqlValue> = Vec::new();
    params.push(SqlValue::Int(id));
    let statement = Statement { sql: SELECT_BY_ID, params };
    proof {
        reveal_strlit("SELECT * FROM todos WHERE id = $1");
        reveal_strlit("SELECT * FROM todos WHERE id = ");
        reveal_strlit("1");
        lemma_one_placeholder("SELECT * FROM todos WHERE id = "@, "1"@);
        assert(SELECT_BY_ID@ =~= "SELECT * FROM todos WHERE id = "@ + seq!['$'] + "1"@);
        assert(statement@.params =~= seq![SqlValueView::Int(id as int)]);
    }
    statement
}

/// The statement that inserts a row with the title `title` and the body
/// `body`.
pub fn insert(title: String, body: String) -> (statement: Statement)
    ensures
        statement@ == (StatementView {
            sql: INSERT@,
            params: seq![SqlValueView::Text(title@), SqlValueView::Text(body@)],
        }),
        statement@.wf(),
{
    let mut params: Vec<SqlValue> = Vec::new();
    params.push(SqlValue::Text(title));
    params.push(SqlValue::Text(body));
    let statement = Statement { sql: INSERT, params };
    proof {
        reveal_strlit("INSERT INTO todos (title, body) VALUES ($1, $2)");
        reveal_strlit("INSERT INTO todos (title, body) VALUES (");
        reveal_strlit("1, ");
        reveal_strlit("2)");
        let head = "INSERT INTO todos (title, body) VALUES ("@;
        lemma_one_placeholder(head, "1, "@);
        lemma_no_placeholders("2)"@);
        lemma_placeholders_concat(head + seq!['$'] + "1, "@, seq!['$']);
        assert(placeholders(seq!['$']) == 1) by {
            assert(seq!['$'].drop_last() =~= Seq::<char>::empty());
            reveal_with_fuel(placeholders, 2);
        }
        lemma_placeholders_concat(head + seq!['$'] + "1, "@ + seq!['$'], "2)"@);
        assert(INSERT@ =~= head + seq!['$'] + "1, "@ + seq!['$'] + "2)"@);
        assert(statement@.params =~= seq![
            SqlValueView::Text(title@),
            SqlValueView::Text(body@),
        ]);
    }
    statement
}

/// The statement that deletes the rows with the id `id`.
pub fn delete_by_id(id: i32) -> (statement: Statement)
    ensures
        statement@ == (StatementView {
            sql: DELETE_BY_ID@,
            params: seq![SqlValueView::Int(id as int)],
        }),
        statement@.wf(),
{
    let mut params: Vec<SqlValue> = Vec::new();
    params.push(SqlValue::Int(id));
    let statement = Statement { sql: DELETE_BY_ID, params };
    proof {
        reveal_strlit("DELETE FROM todos WHERE id = $1");
        reveal_strlit("DELETE FROM todos WHERE id = ");
        reveal_strlit("1");
        lemma_one_placeholder("DELETE FROM todos WHERE id = "@, "1"@);
        assert(DELETE_BY_ID@ =~= "DELETE FROM todos WHERE id = "@ + seq!['$'] + "1"@);
        assert(statement@.params =~= seq![SqlValueView::Int(id as int)]);
    }
    statement
}

/// The statement that is sent once at startup, to see that the store answers.
pub fn probe() -> (statement: Statement)
    ensures
        statement@ == (StatementView {
            sql: PROBE@,
            params: seq![SqlValueView::BigInt(PROBE_VALUE as int)],
        }),
        statement@.wf(),
{
    let mut params: Vec<SqlValue> = Vec::new();
    params.push(SqlValue::BigInt(PROBE_VALUE));
    let statement = Statement { sql: PROBE, params };
    proof {
        reveal_strlit("SELECT $1");
        reveal_strlit("SELECT ");
        reveal_strlit("1");
        lemma_one_placeholder("SELECT "@, "1"@);
        assert(PROBE@ =~= "SELECT "@ + seq!['$'] + "1"@);
        assert(statement@.params =~= seq![SqlValueView::BigInt(PROBE_VALUE as int)]);
    }
    statement
}

/// Whether the store passed the probe: it did if it sent the value back.
pub fn probe_passed(echoed: i64) -> (passed: bool)
    ensures
        passed == (echoed == PROBE_VALUE),
{
    echoed == PROBE_VALUE
}

} // verus!
