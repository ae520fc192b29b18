use todo_api::entity::{CreateError, CreateTodo, Todo};
use todo_api::memory::MemoryStore;
use todo_api::service::{serve, Payload, Request, Response};
use todo_api::status::StatusCode;

fn todo(id: i32, title: &str, body: &str) -> Todo {
    Todo { id, title: title.to_owned(), body: body.to_owned() }
}

fn create(title: &str, body: &str) -> Request {
    Request::CreateTodo(CreateTodo { title: title.to_owned(), body: body.to_owned() })
}

fn failure(status: StatusCode, message: &str) -> Response {
    Response {
        status,
        payload: Payload::Failure(CreateError {
            status: "failed".to_owned(),
            message: message.to_owned(),
        }),
    }
}

fn text(text: &str) -> Response {
    Response { status: StatusCode::Success, payload: Payload::Text(text.to_owned()) }
}

#[test]
fn a_todo_is_created_read_deleted_and_gone() {
    let mut store = MemoryStore::new();
    let created = serve(&mut store, create("Buy milk", "2%"));
    assert_eq!(created, text("PgQueryResult { rows_affected: 1 }"));

    let listed = serve(&mut store, Request::ListTodos);
    assert_eq!(listed.status, StatusCode::Success);
    let new_id = match listed.payload {
        Payload::Todos(rows) => {
            assert_eq!(rows.len(), 1);
            assert_eq!(rows[0].title, "Buy milk");
            assert_eq!(rows[0].body, "2%");
            rows[0].id
        }
        other => panic!("not a list: {other:?}"),
    };

    let read = serve(&mut store, Request::GetTodo(new_id));
    assert_eq!(
        read,
        Response {
            status: StatusCode::Success,
            payload: Payload::Todo(todo(new_id, "Buy milk", "2%")),
        }
    );

    let deleted = serve(&mut store, Request::DeleteTodo(new_id));
    assert_eq!(deleted, text("PgQueryResult { rows_affected: 1 }"));

    let gone = serve(&mut store, Request::GetTodo(new_id));
    assert_eq!(gone.status, StatusCode::NotFound);
    assert_eq!(gone.status.as_u16(), 404);
    assert_eq!(gone, failure(StatusCode::NotFound, "I don't know why but it failed :("));
}

#[test]
fn a_second_delete_is_answered_with_404() {
    let mut store = MemoryStore::new();
    serve(&mut store, create("a", "x"));
    serve(&mut store, create("b", "y"));
    assert_eq!(serve(&mut store, Request::DeleteTodo(1)).status, StatusCode::Success);
    assert_eq!(
        serve(&mut store, Request::DeleteTodo(1)),
        failure(StatusCode::NotFound, "Todo with id 1 not found! :(")
    );
    assert_eq!(
        serve(&mut store, Request::ListTodos),
        Response { status: StatusCode::Success, payload: Payload::Todos(vec![todo(2, "b", "y")]) }
    );
}

#[test]
fn a_read_of_an_absent_id_is_answered_with_404() {
    let mut store = MemoryStore::new();
    serve(&mut store, create("a", "x"));
    for id in [0, 2, -1, 40, i32::MIN, i32::MAX] {
        assert_eq!(
            serve(&mut store, Request::GetTodo(id)),
            failure(StatusCode::NotFound, "I don't know why but it failed :(")
        );
    }
}

#[test]
fn a_list_of_an_empty_store_is_an_empty_list() {
    let mut store = MemoryStore::new();
    assert_eq!(
        serve(&mut store, Request::ListTodos),
        Response { status: StatusCode::Success, payload: Payload::Todos(Vec::new()) }
    );
}

#[test]
fn the_echo_is_served() {
    let mut store = MemoryStore::new();
    assert_eq!(serve(&mut store, Request::Echo("hello".to_owned())), text("hello"));
    assert_eq!(serve(&mut store, Request::Echo(String::new())), text("bruh"));
}

#[test]
fn the_fixed_pages_are_served() {
    let mut store = MemoryStore::new();
    assert_eq!(
        serve(&mut store, Request::Index),
        Response {
            status: StatusCode::Success,
            payload: Payload::Html("<h1>HTML thingymajiggy</h1>".to_owned()),
        }
    );
    assert_eq!(
        serve(&mut store, Request::Sample),
        Response { status: StatusCode::Success, payload: Payload::Todo(todo(1, "Title", "Body")) }
    );
    assert_eq!(store.list_all(), Ok(Vec::new()));
}

#[test]
fn a_create_that_the_store_refuses_is_answered_with_500() {
    let mut store = MemoryStore::from_rows(Vec::new(), i32::MAX).unwrap();
    assert_eq!(
        serve(&mut store, create("a", "x")),
        failure(StatusCode::InternalServerError, "I don't know why but it failed :(")
    );
    assert_eq!(store.list_all(), Ok(Vec::new()));
}

#[test]
fn reads_leave_the_store_as_it_is() {
    let mut store = MemoryStore::new();
    serve(&mut store, create("a", "x"));
    let before = store.list_all();
    serve(&mut store, Request::Index);
    serve(&mut store, Request::Sample);
    serve(&mut store, Request::Echo("x".to_owned()));
    serve(&mut store, Request::ListTodos);
    serve(&mut store, Request::GetTodo(1));
    serve(&mut store, Request::GetTodo(2));
    assert_eq!(store.list_all(), before);
}
