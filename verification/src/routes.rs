//! The HTTP surface: which method and path reach which endpoint, and which
//! methods the cross-origin policy lets through.

use vstd::prelude::*;
use vstd::string::*;

verus! {

/// A request method.
#[derive(Debug, Clone, Copy, PartialEq, Eq, Structural)]
pub enum Method {
    Options,
    Get,
    Post,
    Put,
    Delete,
    Head,
    Trace,
    Connect,
    Patch,
}

/// An endpoint of the service.
#[derive(Debug, Clone, Copy, PartialEq, Eq, Structural)]
pub enum Route {
    /// The greeting page.
    Index,
    /// The sample todo.
    Sample,
    /// The echo.
    Echo,
    /// All todos.
    ListTodos,
    /// A new todo.
    CreateTodo,
    /// One todo, by its id.
    GetTodo,
    /// The removal of one todo, by its id.
    DeleteTodo,
}

/// The path of the greeting page.
pub const INDEX_PATH: &'static str = "/";

/// The path of the sample todo and of the echo.
pub const API_PATH: &'static str = "/api";

/// The path of the collection of todos.
pub const TODOS_PATH: &'static str = "/api/todos";

/// The path of one todo; its last segment is the id.
pub const TODO_PATH: &'static str = "/api/todos/:id";

impl Route {
    /// The method that reaches the endpoint.
    pub open spec fn method_of(self) -> Method {
        match self {
            Route::Index => Method::Get,
            Route::Sample => Method::Get,
            Route::Echo => Method::Post,
            Route::ListTodos => Method::Get,
            Route::CreateTodo => Method::Post,
            Route::GetTodo => Method::Get,
            Route::DeleteTodo => Method::Delete,
        }
    }

    /// The path that reaches the endpoint.
    pub open spec fn path_of(self) -> Seq<char> {
        match self {
            Route::Index => INDEX_PATH@,
            Route::Sample => API_PATH@,
            Route::Echo => API_PATH@,
            Route::ListTodos => TODOS_PATH@,
            Route::CreateTodo => TODOS_PATH@,
            Route::GetTodo => TODO_PATH@,
            Route::DeleteTodo => TODO_PATH@,
        }
    }

    /// The method that reaches the endpoint.
    pub fn method(&self) -> (method: Method)
        ensures
            method == self.method_of(),
    {
        match self {
            Route::Index => Method::Get,
            Route::Sample => Method::Get,
            Route::Echo => Method::Post,
            Route::ListTodos => Method::Get,
            Route::CreateTodo => Method::Post,
            Route::GetTodo => Method::Get,
            Route::DeleteTodo => Method::Delete,
        }
    }

    /// The path that reaches the endpoint.
    pub fn path(&self) -> (path: &'static str)
        ensures
            path@ == self.path_of(),
    {
        match self {
            Route::Index => INDEX_PATH,
            Route::Sample => API_PATH,
            Route::Echo => API_PATH,
            Route::ListTodos => TODOS_PATH,
            Route::CreateTodo => TODOS_PATH,
            Route::GetTodo => TODO_PATH,
            Route::DeleteTodo => TODO_PATH,
        }
    }

    /// Every endpoint, once.
    pub fn all() -> (routes: Vec<Route>)
        ensures
            routes@ == seq![
                Route::Index,
                Route::Sample,
                Route::Echo,
                Route::ListTodos,
                Route::CreateTodo,
                Route::GetTodo,
                Route::DeleteTodo,
            ],
    {
        let mut routes: Vec<Route> = Vec::new();
        routes.push(Route::Index);
        routes.push(Route::Sample);
        routes.push(Route::Echo);
        routes.push(Route::ListTodos);
        routes.push(Route::CreateTodo);
        routes.push(Route::GetTodo);
        routes.push(Route::DeleteTodo);
        assert(routes@ =~= seq![
            Route::Index,
            Route::Sample,
            Route::Echo,
            Route::ListTodos,
            Route::CreateTodo,
            Route::GetTodo,
            Route::DeleteTodo,
        ]);
        routes
    }
}

/// Whether the cross-origin policy lets a method through. The policy is the
/// same for every route and every origin.
pub open spec fn cors_allows(method: Method) -> bool {
    ||| method == Method::Get
    ||| method == Method::Post
    ||| method == Method::Put
    ||| method == Method::Patch
    ||| method == Method::Delete
}

/// The methods that the cross-origin policy lets through.
pub fn allowed_methods() -> (methods: Vec<Method>)
    ensures
        methods@ == seq![Method::Get, Method::Post, Method::Put, Method::Patch, Method::Delete],
        forall|method: Method| methods@.contains(method) <==> cors_allows(method),
{
    let mut methods: Vec<Method> = Vec::new();
    methods.push(Method::Get);
    methods.push(Method::Post);
    methods.push(Method::Put);
    methods.push(Method::Patch);
    methods.push(Method::Delete);
    proof {
        let expected = seq![Method::Get, Method::Post, Method::Put, Method::Patch, Method::Delete];
        assert(methods@ =~= expected);
        assert(expected[0] == Method::Get);
        assert(expected[1] == Method::Post);
        assert(expected[2] == Method::Put);
        assert(expected[3] == Method::Patch);
        assert(expected[4] == Method::Delete);
    }
    methods
}

/// The method of every endpoint passes the cross-origin policy.
pub proof fn lemma_every_route_is_allowed(route: Route)
    ensures
        cors_allows(route.method_of()),
{
}

/// A method and a path reach at most one endpoint.
pub proof fn lemma_routes_do_not_overlap(a: Route, b: Route)
    requires
        a.method_of() == b.method_of(),
        a.path_of() == b.path_of(),
    ensures
        a == b,
{
    reveal_strlit("/");
    reveal_strlit("/api");
    reveal_strlit("/api/todos");
    reveal_strlit("/api/todos/:id");
    assert(INDEX_PATH@.len() == 1);
    assert(API_PATH@.len() == 4);
    assert(TODOS_PATH@.len() == 10);
    assert(TODO_PATH@.len() == 14);
}

} // verus!
