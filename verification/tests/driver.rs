use axum::http;
use sqlx::postgres::PgQueryResult;
use todo_api::entity::{CreateTodo, Todo};
use todo_api::repository::QueryResult;
use todo_api::routes::{Method, Route};
use todo_api::status::StatusCode;

#[test]
fn describe_agrees_with_the_driver_on_no_rows() {
    let done = PgQueryResult::default();
    let result = QueryResult { rows_affected: done.rows_affected() };
    assert_eq!(result.describe(), format!("{:?}", done));
}

#[test]
fn describe_agrees_with_the_driver_on_accumulated_results() {
    let mut done = PgQueryResult::default();
    done.extend(vec![PgQueryResult::default(), PgQueryResult::default()]);
    let result = QueryResult { rows_affected: done.rows_affected() };
    assert_eq!(result.describe(), format!("{:?}", done));
}

#[test]
fn status_codes_are_those_of_http() {
    assert_eq!(StatusCode::Success.as_u16(), http::StatusCode::OK.as_u16());
    assert_eq!(StatusCode::NotFound.as_u16(), http::StatusCode::NOT_FOUND.as_u16());
    assert_eq!(
        StatusCode::InternalServerError.as_u16(),
        http::StatusCode::INTERNAL_SERVER_ERROR.as_u16()
    );
}

#[test]
fn the_router_takes_every_route() {
    let mut router: axum::Router = axum::Router::new();
    for route in Route::all() {
        let filter = match route.method() {
            Method::Get => axum::routing::MethodFilter::GET,
            Method::Post => axum::routing::MethodFilter::POST,
            Method::Delete => axum::routing::MethodFilter::DELETE,
            other => panic!("no route has the method {other:?}"),
        };
        router = router.route(route.path(), axum::routing::on(filter, || async { "" }));
    }
    assert!(router.has_routes());
}

#[test]
fn entities_are_cloned_field_by_field() {
    let todo = Todo { id: 4, title: "t".to_owned(), body: "b".to_owned() };
    assert_eq!(todo.clone(), todo);
    let request = CreateTodo { title: "t".to_owned(), body: "b".to_owned() };
    assert_eq!(request.clone(), request);
}
