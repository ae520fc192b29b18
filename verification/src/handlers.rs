//! Response shaping: what each endpoint answers, given what the repository
//! returned.

use vstd::prelude::*;
use vstd::string::*;
use crate::decimal::{decimal, i32_to_decimal, lemma_decimal_differs};
use crate::entity::{failure, CreateError, Todo, TodoView};
use crate::repository::{write_description, QueryResult, RepoError};
use crate::status::StatusCode;

verus! {

/// The greeting that the index page shows.
pub const GREETING: &'static str = "<h1>HTML thingymajiggy</h1>";

/// What the echo endpoint answers when the request body is empty.
pub const EMPTY_ECHO: &'static str = "bruh";

/// The message of a failed read or create. It says nothing of the cause.
pub const GENERIC_FAILURE: &'static str = "I don't know why but it failed :(";

/// The message of a delete that the store could not execute.
pub const DELETE_FAILURE: &'static str = "Failed to delete todo :(";

/// The sample todo that [`root`] answers with.
pub open spec fn sample_todo() -> TodoView {
    TodoView { id: 1, title: "Title"@, body: "Body"@ }
}

/// The message of a delete that found no row with the id `id`.
pub open spec fn not_found_message(id: int) -> Seq<char> {
    "Todo with id "@ + decimal(id) + " not found! :("@
}

/// The index page: a fixed piece of HTML.
pub fn html() -> (page: &'static str)
    ensures
        page@ == GREETING@,
{
    GREETING
}

/// The sample endpoint: a fixed todo, whatever the store holds.
pub fn root() -> (todo: Todo)
    ensures
        todo@ == sample_todo(),
{
    Todo { id: 1, title: "Title".to_owned(), body: "Body".to_owned() }
}

/// What the echo endpoint answers to the request body `body`.
pub open spec fn echoed(body: Seq<char>) -> Seq<char> {
    if body.len() == 0 {
        EMPTY_ECHO@
    } else {
        body
    }
}

/// The echo endpoint: the request body comes back as it is, and an empty body
/// is answered with [`EMPTY_ECHO`].
pub fn echo(body: String) -> (reply: String)
    ensures
        reply@ == echoed(body@),
{
    if body.as_str().is_empty() {
        EMPTY_ECHO.to_owned()
    } else {
        body
    }
}

/// The list endpoint, given what the repository returned for the select: the
/// rows go out as they came, an empty list as an empty list.
///
/// The endpoint has no failure response, so a failed select is not an input
/// of this function.
pub fn get_todos(outcome: Result<Vec<Todo>, RepoError>) -> (reply: Vec<Todo>)
    requires
        outcome is Ok,
    ensures
        Ok::<Vec<Todo>, RepoError>(reply) == outcome,
{
    outcome.unwrap()
}

/// The status that reports a failed read.
pub open spec fn read_failure_status(fault: RepoError) -> StatusCode {
    match fault {
        RepoError::NotFound => StatusCode::NotFound,
        RepoError::StoreError => StatusCode::InternalServerError,
    }
}

/// The read endpoint, given what the repository returned for the select by
/// id.
///
/// A row that was found goes out as it is. A missing row is answered with
/// 404, a fault of the store with 500, and both with [`GENERIC_FAILURE`].
pub fn get_todo_by_id(outcome: Result<Todo, RepoError>) -> (reply: Result<
    Todo,
    (StatusCode, CreateError),
>)
    ensures
        match outcome {
            Ok(todo) => reply == Ok::<Todo, (StatusCode, CreateError)>(todo),
            Err(fault) => {
                &&& reply matches Err((status, error))
                &&& status == read_failure_status(fault)
                &&& error@ == failure(GENERIC_FAILURE@)
            },
        },
{
    match outcome {
        Ok(todo) => Ok(todo),
        Err(fault) => {
            let status = match fault {
                RepoError::NotFound => StatusCode::NotFound,
                RepoError::StoreError => StatusCode::InternalServerError,
            };
            Err((status, CreateError::failed(GENERIC_FAILURE.to_owned())))
        },
    }
}

/// The create endpoint, given what the repository returned for the insert.
///
/// An insert that was executed is answered with the description of the write,
/// one that failed with 500 and [`GENERIC_FAILURE`].
pub fn post_todo(outcome: Result<QueryResult, RepoError>) -> (reply: Result<
    String,
    (StatusCode, CreateError),
>)
    ensures
        match outcome {
            Ok(result) => {
                &&& reply matches Ok(text)
                &&& text@ == write_description(result.rows_affected as nat)
            },
            Err(_) => {
                &&& reply matches Err((status, error))
                &&& status == StatusCode::InternalServerError
                &&& error@ == failure(GENERIC_FAILURE@)
            },
        },
{
    match outcome {
        Ok(result) => Ok(result.describe()),
        Err(_) => Err(
            (StatusCode::InternalServerError, CreateError::failed(GENERIC_FAILURE.to_owned())),
        ),
    }
}

/// The delete endpoint, given the id from the path and what the repository
/// returned for the delete.
///
/// A delete that touched a row is answered with the description of the write.
/// One that touched none is answered with 404 and a message that names the id.
/// One that failed is answered with 500 and [`DELETE_FAILURE`].
pub fn delete_todo(id: i32, outcome: Result<QueryResult, RepoError>) -> (reply: Result<
    String,
    (StatusCode, CreateError),
>)
    ensures
        match outcome {
            Ok(result) => if result.rows_affected == 0 {
                &&& reply matches Err((status, error))
                &&& status == StatusCode::NotFound
                &&& error@ == failure(not_found_message(id as int))
            } else {
                &&& reply matches Ok(text)
                &&& text@ == write_description(result.rows_affected as nat)
            },
            Err(_) => {
                &&& reply matches Err((status, error))
                &&& status == StatusCode::InternalServerError
                &&& error@ == failure(DELETE_FAILURE@)
            },
        },
{
    match outcome {
        Err(_) => Err(
            (StatusCode::InternalServerError, CreateError::failed(DELETE_FAILURE.to_owned())),
        ),
        Ok(result) => {
            if result.rows_affected == 0 {
                let mut message = "Todo with id ".to_owned();
                let number = i32_to_decimal(id);
                message.append(number.as_str());
                message.append(" not found! :(");
                Err((StatusCode::NotFound, CreateError::failed(message)))
            } else {
                Ok(result.describe())
            }
        },
    }
}

/// The message of a delete that found no row tells which id was asked for:
/// no two ids share a message.
pub proof fn lemma_not_found_message_names_the_id(a: int, b: int)
    requires
        not_found_message(a) == not_found_message(b),
    ensures
        a == b,
{
    let head = "Todo with id "@;
    let tail = " not found! :("@;
    let text_a = decimal(a);
    let text_b = decimal(b);
    assert((head + text_a + tail).len() == head.len() + text_a.len() + tail.len());
    assert((head + text_b + tail).len() == head.len() + text_b.len() + tail.len());
    let start = head.len() as int;
    assert((head + text_a + tail).subrange(start, start + text_a.len()) =~= text_a);
    assert((head + text_b + tail).subrange(start, start + text_b.len()) =~= text_b);
    lemma_decimal_differs(a, b);
}

} // verus!
