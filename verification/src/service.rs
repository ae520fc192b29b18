//! The service as a whole, over a store in memory: a request goes in, the
//! table changes as the request asks, and a response comes out.

use vstd::prelude::*;
use crate::entity::{
    failure, CreateError, CreateErrorView, CreateTodo, CreateTodoView, Todo, TodoView,
};
use crate::handlers::{
    delete_todo, echo, echoed, get_todo_by_id, get_todos, html, not_found_message, post_todo,
    root, sample_todo, GENERIC_FAILURE, GREETING,
};
use crate::memory::MemoryStore;
use crate::repository::write_description;
use crate::status::StatusCode;
use crate::table::{
    lemma_delete_removes_that_row, lemma_insert_adds_one_row,
    lemma_second_delete_removes_nothing, Table,
};

verus! {

/// A request, after the router has matched it and read its path and body.
#[derive(Debug, PartialEq, Eq)]
pub enum Request {
    /// `GET /`
    Index,
    /// `GET /api`
    Sample,
    /// `POST /api`, with the request body
    Echo(String),
    /// `GET /api/todos`
    ListTodos,
    /// `POST /api/todos`, with the decoded body
    CreateTodo(CreateTodo),
    /// `GET /api/todos/:id`, with the id
    GetTodo(i32),
    /// `DELETE /api/todos/:id`, with the id
    DeleteTodo(i32),
}

/// What a [`Request`] is to a contract.
pub enum RequestView {
    Index,
    Sample,
    Echo(Seq<char>),
    ListTodos,
    CreateTodo(CreateTodoView),
    GetTodo(int),
    DeleteTodo(int),
}

impl View for Request {
    type V = RequestView;

    open spec fn view(&self) -> RequestView {
        match self {
            Request::Index => RequestView::Index,
            Request::Sample => RequestView::Sample,
            Request::Echo(body) => RequestView::Echo(body@),
            Request::ListTodos => RequestView::ListTodos,
            Request::CreateTodo(todo) => RequestView::CreateTodo(todo@),
            Request::GetTodo(id) => RequestView::GetTodo(*id as int),
            Request::DeleteTodo(id) => RequestView::DeleteTodo(*id as int),
        }
    }
}

/// The body of a response.
#[derive(Debug, PartialEq, Eq)]
pub enum Payload {
    /// A page of HTML.
    Html(String),
    /// Plain text.
    Text(String),
    /// One todo, sent as a JSON object.
    Todo(Todo),
    /// A list of todos, sent as a JSON array.
    Todos(Vec<Todo>),
    /// A failure, sent as a JSON object.
    Failure(CreateError),
}

/// What a [`Payload`] is to a contract.
pub enum PayloadView {
    Html(Seq<char>),
    Text(Seq<char>),
    Todo(TodoView),
    Todos(Seq<TodoView>),
    Failure(CreateErrorView),
}

impl View for Payload {
    type V = PayloadView;

    open spec fn view(&self) -> PayloadView {
        match self {
            Payload::Html(page) => PayloadView::Html(page@),
            Payload::Text(text) => PayloadView::Text(text@),
            Payload::Todo(todo) => PayloadView::Todo(todo@),
            Payload::Todos(todos) => PayloadView::Todos(todos.deep_view()),
            Payload::Failure(error) => PayloadView::Failure(error@),
        }
    }
}

/// A response: its status and its body.
#[derive(Debug, PartialEq, Eq)]
pub struct Response {
    pub status: StatusCode,
    pub payload: Payload,
}

/// What a [`Response`] is to a contract.
pub struct ResponseView {
    pub status: StatusCode,
    pub payload: PayloadView,
}

impl View for Response {
    type V = ResponseView;

    open spec fn view(&self) -> ResponseView {
        ResponseView { status: self.status, payload: self.payload@ }
    }
}

/// The response that reports success with the given body.
pub open spec fn success(payload: PayloadView) -> ResponseView {
    ResponseView { status: StatusCode::Success, payload }
}

/// The response that reports a failure with the given status and message.
pub open spec fn failed(status: StatusCode, message: Seq<char>) -> ResponseView {
    ResponseView { status, payload: PayloadView::Failure(failure(message)) }
}

/// The response to `request` when the table is `table`.
pub open spec fn reply(table: Table, request: RequestView) -> ResponseView {
    match request {
        RequestView::Index => success(PayloadView::Html(GREETING@)),
        RequestView::Sample => success(PayloadView::Todo(sample_todo())),
        RequestView::Echo(body) => success(PayloadView::Text(echoed(body))),
        RequestView::ListTodos => success(PayloadView::Todos(table.rows)),
        RequestView::CreateTodo(todo) => if table.can_insert() {
            success(PayloadView::Text(write_description(1)))
        } else {
            failed(StatusCode::InternalServerError, GENERIC_FAILURE@)
        },
        RequestView::GetTodo(id) => match table.get(id) {
            Some(row) => success(PayloadView::Todo(row)),
            None => failed(StatusCode::NotFound, GENERIC_FAILURE@),
        },
        RequestView::DeleteTodo(id) => if table.deleted_by(id) == 0 {
            failed(StatusCode::NotFound, not_found_message(id))
        } else {
            success(PayloadView::Text(write_description(table.deleted_by(id))))
        },
    }
}

/// The table after `request`, when it was `table` before.
pub open spec fn table_after(table: Table, request: RequestView) -> Table {
    match request {
        RequestView::CreateTodo(todo) => if table.can_insert() {
            table.insert(todo.title, todo.body)
        } else {
            table
        },
        RequestView::DeleteTodo(id) => table.delete(id),
        _ => table,
    }
}

fn text_or_failure(outcome: Result<String, (StatusCode, CreateError)>) -> (response: Response)
    ensures
        response@ == match outcome {
            Ok(text) => success(PayloadView::Text(text@)),
            Err((status, error)) => ResponseView {
                status,
                payload: PayloadView::Failure(error@),
            },
        },
{
    match outcome {
        Ok(text) => Response { status: StatusCode::Success, payload: Payload::Text(text) },
        Err((status, error)) => Response { status, payload: Payload::Failure(error) },
    }
}

/// Serves one request from the store: runs the statement that the request
/// asks for, and shapes the response from what the store returned.
pub fn serve(store: &mut MemoryStore, request: Request) -> (response: Response)
    requires
        old(store)@.wf(),
    ensures
        final(store)@.wf(),
        final(store)@ == table_after(old(store)@, request@),
        response@ == reply(old(store)@, request@),
{
    match request {
        Request::Index => Response {
            status: StatusCode::Success,
            payload: Payload::Html(html().to_owned()),
        },
        Request::Sample => Response { status: StatusCode::Success, payload: Payload::Todo(root()) },
        Request::Echo(body) => Response {
            status: StatusCode::Success,
            payload: Payload::Text(echo(body)),
        },
        Request::ListTodos => {
            let rows = get_todos(store.list_all());
            Response { status: StatusCode::Success, payload: Payload::Todos(rows) }
        },
        Request::CreateTodo(todo) => {
            let outcome = store.create(todo.title, todo.body);
            text_or_failure(post_todo(outcome))
        },
        Request::GetTodo(id) => match get_todo_by_id(store.get_by_id(id)) {
            Ok(todo) => Response { status: StatusCode::Success, payload: Payload::Todo(todo) },
            Err((status, error)) => Response { status, payload: Payload::Failure(error) },
        },
        Request::DeleteTodo(id) => {
            let outcome = store.delete_by_id(id);
            text_or_failure(delete_todo(id, outcome))
        },
    }
}

/// The table after the requests `requests`, served one after the other.
pub open spec fn table_after_all(table: Table, requests: Seq<RequestView>) -> Table
    decreases requests.len(),
{
    if requests.len() == 0 {
        table
    } else {
        table_after(table_after_all(table, requests.drop_last()), requests.last())
    }
}

/// No request breaks the table: afterwards every row still has an id of its
/// own.
pub proof fn lemma_request_keeps_ids_distinct(table: Table, request: RequestView)
    requires
        table.wf(),
    ensures
        table_after(table, request).wf(),
{
    match request {
        RequestView::CreateTodo(todo) => {
            if table.can_insert() {
                lemma_insert_adds_one_row(table, todo.title, todo.body);
            }
        },
        RequestView::DeleteTodo(id) => {
            lemma_delete_removes_that_row(table, id);
        },
        _ => {},
    }
}

/// Whatever requests reach an empty store, and in whatever order, no two rows
/// ever share an id.
pub proof fn lemma_ids_stay_distinct(requests: Seq<RequestView>)
    ensures
        table_after_all(Table::empty(), requests).wf(),
    decreases requests.len(),
{
    if requests.len() > 0 {
        lemma_ids_stay_distinct(requests.drop_last());
        lemma_request_keeps_ids_distinct(
            table_after_all(Table::empty(), requests.drop_last()),
            requests.last(),
        );
    }
}

/// Only a create and a delete change the table.
pub proof fn lemma_reads_change_nothing(table: Table, request: RequestView)
    requires
        !(request is CreateTodo),
        !(request is DeleteTodo),
    ensures
        table_after(table, request) == table,
{
}

/// A list of an empty table is answered with success and an empty list.
pub proof fn lemma_empty_table_lists_nothing()
    ensures
        reply(Table::empty(), RequestView::ListTodos) == success(
            PayloadView::Todos(Seq::empty()),
        ),
{
}

/// A create that the store can execute is answered with success, and a list
/// afterwards holds the rows that were there and, after them, one more with
/// the title and the body of the request. That row can be read by its id.
pub proof fn lemma_create_then_list(table: Table, todo: CreateTodoView)
    requires
        table.wf(),
        table.can_insert(),
    ensures
        ({
            let after = table_after(table, RequestView::CreateTodo(todo));
            let row = table.next_row(todo.title, todo.body);
            &&& reply(table, RequestView::CreateTodo(todo)).status == StatusCode::Success
            &&& row.title == todo.title
            &&& row.body == todo.body
            &&& reply(after, RequestView::ListTodos) == success(
                PayloadView::Todos(table.rows.push(row)),
            )
            &&& reply(after, RequestView::GetTodo(row.id)) == success(PayloadView::Todo(row))
        }),
{
    lemma_insert_adds_one_row(table, todo.title, todo.body);
}

/// A read by an id that no row has is answered with 404, and changes nothing.
pub proof fn lemma_read_of_absent_id_is_not_found(table: Table, id: int)
    requires
        !table.has_id(id),
    ensures
        table.get(id) is None,
        reply(table, RequestView::GetTodo(id)) == failed(StatusCode::NotFound, GENERIC_FAILURE@),
        reply(table, RequestView::GetTodo(id)).status.code() == 404,
        table_after(table, RequestView::GetTodo(id)) == table,
{
}

/// A delete by an id that a row has is answered with success and removes
/// that row and no other. A second delete by the same id is answered with
/// 404 and a message that names the id, and changes nothing; so is a read by
/// that id answered with 404.
pub proof fn lemma_delete_then_delete(table: Table, id: int)
    requires
        table.wf(),
        table.has_id(id),
    ensures
        ({
            let after = table_after(table, RequestView::DeleteTodo(id));
            &&& reply(table, RequestView::DeleteTodo(id)) == success(
                PayloadView::Text(write_description(1)),
            )
            &&& after.rows.len() == table.rows.len() - 1
            &&& !after.has_id(id)
            &&& forall|other: int| other != id ==> after.get(other) == table.get(other)
            &&& reply(after, RequestView::DeleteTodo(id)) == failed(
                StatusCode::NotFound,
                not_found_message(id),
            )
            &&& table_after(after, RequestView::DeleteTodo(id)) == after
            &&& reply(after, RequestView::GetTodo(id)).status == StatusCode::NotFound
        }),
{
    lemma_delete_removes_that_row(table, id);
    lemma_second_delete_removes_nothing(table, id);
}

} // verus!
