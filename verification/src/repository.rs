//! What the repository hands to the handlers: the result of a write, and the
//! two ways in which an operation fails.

use vstd::prelude::*;
use vstd::string::*;
use crate::decimal::{digits, u64_to_decimal};

verus! {

/// Why a repository operation failed.
#[derive(Debug, Clone, Copy, PartialEq, Eq, Structural)]
pub enum RepoError {
    /// No row has the requested id.
    NotFound,
    /// The statement could not be executed: the connection is lost, a
    /// constraint is violated, the query is malformed.
    StoreError,
}

/// The result of a statement that writes: how many rows it touched.
#[derive(Debug, Clone, Copy, PartialEq, Eq, Structural)]
pub struct QueryResult {
    pub rows_affected: u64,
}

/// The text that describes a write which touched `rows_affected` rows. It is
/// the debug rendering that the PostgreSQL driver gives of its result, which
/// is what a successful create or delete has always sent to the client.
pub open spec fn write_description(rows_affected: nat) -> Seq<char> {
    "PgQueryResult { rows_affected: "@ + digits(rows_affected) + " }"@
}

impl QueryResult {
    /// The description of the write that a successful response carries.
    pub fn describe(&self) -> (text: String)
        ensures
            text@ == write_description(self.rows_affected as nat),
    {
        let mut text = "PgQueryResult { rows_affected: ".to_owned();
        let count = u64_to_decimal(self.rows_affected);
        text.append(count.as_str());
        text.append(" }");
        text
    }
}

} // verus!
