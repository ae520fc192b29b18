use todo_api::entity::{CreateError, Todo};
use todo_api::handlers::{
    delete_todo, echo, get_todo_by_id, get_todos, html, post_todo, root, DELETE_FAILURE,
    EMPTY_ECHO, GENERIC_FAILURE, GREETING,
};
use todo_api::repository::{QueryResult, RepoError};
use todo_api::status::StatusCode;

fn todo(id: i32, title: &str, body: &str) -> Todo {
    Todo { id, title: title.to_owned(), body: body.to_owned() }
}

fn failure(message: &str) -> CreateError {
    CreateError { status: "failed".to_owned(), message: message.to_owned() }
}

#[test]
fn echo_returns_the_body() {
    assert_eq!(echo("hello".to_owned()), "hello");
}

#[test]
fn echo_of_an_empty_body_is_the_placeholder() {
    assert_eq!(echo(String::new()), "bruh");
    assert_eq!(EMPTY_ECHO, "bruh");
}

#[test]
fn echo_keeps_blank_and_unicode_bodies() {
    assert_eq!(echo(" ".to_owned()), " ");
    assert_eq!(echo("héllo\n".to_owned()), "héllo\n");
    assert_eq!(echo("bruh".to_owned()), "bruh");
}

#[test]
fn html_is_the_greeting() {
    assert_eq!(html(), "<h1>HTML thingymajiggy</h1>");
    assert_eq!(html(), GREETING);
}

#[test]
fn root_is_the_sample_todo() {
    assert_eq!(root(), todo(1, "Title", "Body"));
}

#[test]
fn get_todos_passes_the_rows_on() {
    let rows = vec![todo(2, "b", "second"), todo(1, "a", "first")];
    assert_eq!(get_todos(Ok(rows)), vec![todo(2, "b", "second"), todo(1, "a", "first")]);
}

#[test]
fn get_todos_of_no_rows_is_an_empty_list() {
    assert_eq!(get_todos(Ok(Vec::new())), Vec::<Todo>::new());
}

#[test]
fn get_todo_by_id_passes_the_row_on() {
    assert_eq!(get_todo_by_id(Ok(todo(7, "Buy milk", "2%"))), Ok(todo(7, "Buy milk", "2%")));
}

#[test]
fn get_todo_by_id_answers_a_missing_row_with_404() {
    assert_eq!(
        get_todo_by_id(Err(RepoError::NotFound)),
        Err((StatusCode::NotFound, failure("I don't know why but it failed :(")))
    );
}

#[test]
fn get_todo_by_id_answers_a_store_fault_with_500() {
    assert_eq!(
        get_todo_by_id(Err(RepoError::StoreError)),
        Err((StatusCode::InternalServerError, failure(GENERIC_FAILURE)))
    );
}

#[test]
fn post_todo_describes_the_write() {
    assert_eq!(
        post_todo(Ok(QueryResult { rows_affected: 1 })),
        Ok("PgQueryResult { rows_affected: 1 }".to_owned())
    );
    assert_eq!(
        post_todo(Ok(QueryResult { rows_affected: 0 })),
        Ok("PgQueryResult { rows_affected: 0 }".to_owned())
    );
}

#[test]
fn post_todo_answers_a_store_fault_with_500() {
    let expected = Err((
        StatusCode::InternalServerError,
        failure("I don't know why but it failed :("),
    ));
    assert_eq!(post_todo(Err(RepoError::StoreError)), expected);
    assert_eq!(post_todo(Err(RepoError::NotFound)), expected);
}

#[test]
fn delete_todo_describes_the_write() {
    assert_eq!(
        delete_todo(7, Ok(QueryResult { rows_affected: 1 })),
        Ok("PgQueryResult { rows_affected: 1 }".to_owned())
    );
    assert_eq!(
        delete_todo(7, Ok(QueryResult { rows_affected: 12 })),
        Ok("PgQueryResult { rows_affected: 12 }".to_owned())
    );
}

#[test]
fn delete_todo_answers_no_row_with_404_and_names_the_id() {
    assert_eq!(
        delete_todo(7, Ok(QueryResult { rows_affected: 0 })),
        Err((StatusCode::NotFound, failure("Todo with id 7 not found! :(")))
    );
    assert_eq!(
        delete_todo(-3, Ok(QueryResult { rows_affected: 0 })),
        Err((StatusCode::NotFound, failure("Todo with id -3 not found! :(")))
    );
    assert_eq!(
        delete_todo(i32::MIN, Ok(QueryResult { rows_affected: 0 })),
        Err((StatusCode::NotFound, failure("Todo with id -2147483648 not found! :(")))
    );
}

#[test]
fn delete_todo_answers_a_store_fault_with_500() {
    let expected = Err((StatusCode::InternalServerError, failure("Failed to delete todo :(")));
    assert_eq!(delete_todo(7, Err(RepoError::StoreError)), expected);
    assert_eq!(delete_todo(7, Err(RepoError::NotFound)), expected);
    assert_eq!(DELETE_FAILURE, "Failed to delete todo :(");
}

#[test]
fn failure_bodies_have_the_status_failed() {
    let error = CreateError::failed("why".to_owned());
    assert_eq!(error, failure("why"));
    assert_eq!(error.clone(), error);
}

#[test]
fn status_codes_go_on_the_wire_as_numbers() {
    assert_eq!(StatusCode::Success.as_u16(), 200);
    assert_eq!(StatusCode::NotFound.as_u16(), 404);
    assert_eq!(StatusCode::InternalServerError.as_u16(), 500);
}

#[test]
fn query_result_describes_itself() {
    let text = QueryResult { rows_affected: u64::MAX }.describe();
    assert_eq!(text, "PgQueryResult { rows_affected: 18446744073709551615 }");
    assert_eq!(text, format!("Pg{:?}", QueryResult { rows_affected: u64::MAX }));
}
