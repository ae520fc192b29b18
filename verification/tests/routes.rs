use todo_api::config::{DATABASE_URL, LISTEN_ADDRESS, MAX_CONNECTIONS};
use todo_api::routes::{allowed_methods, Method, Route};

#[test]
fn every_route_has_its_method_and_path() {
    let table: Vec<(Method, &str)> =
        Route::all().iter().map(|route| (route.method(), route.path())).collect();
    assert_eq!(
        table,
        vec![
            (Method::Get, "/"),
            (Method::Get, "/api"),
            (Method::Post, "/api"),
            (Method::Get, "/api/todos"),
            (Method::Post, "/api/todos"),
            (Method::Get, "/api/todos/:id"),
            (Method::Delete, "/api/todos/:id"),
        ]
    );
}

#[test]
fn no_two_routes_share_a_method_and_a_path() {
    let routes = Route::all();
    assert_eq!(routes.len(), 7);
    for (i, a) in routes.iter().enumerate() {
        for b in &routes[i + 1..] {
            assert_ne!(a, b);
            assert!(a.method() != b.method() || a.path() != b.path());
        }
    }
}

#[test]
fn the_cross_origin_policy_allows_five_methods() {
    assert_eq!(
        allowed_methods(),
        vec![Method::Get, Method::Post, Method::Put, Method::Patch, Method::Delete]
    );
    for method in [Method::Options, Method::Head, Method::Trace, Method::Connect] {
        assert!(!allowed_methods().contains(&method));
    }
    for route in Route::all() {
        assert!(allowed_methods().contains(&route.method()));
    }
}

#[test]
fn the_settings_are_fixed() {
    assert_eq!(MAX_CONNECTIONS, 20);
    assert_eq!(DATABASE_URL, "DATABASE_URL");
    assert_eq!(LISTEN_ADDRESS, "0.0.0.0:3000");
}
