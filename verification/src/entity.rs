//! The todo entity and the two transport shapes around it.

use vstd::prelude::*;

verus! {

/// A todo as the store holds it. The store assigns `id` when the row is
/// created; nothing changes a row afterwards.
#[derive(Debug, PartialEq, Eq)]
pub struct Todo {
    pub id: i32,
    pub title: String,
    pub body: String,
}

/// What a [`Todo`] is to a contract.
pub struct TodoView {
    pub id: int,
    pub title: Seq<char>,
    pub body: Seq<char>,
}

impl View for Todo {
    type V = TodoView;

    open spec fn view(&self) -> TodoView {
        TodoView { id: self.id as int, title: self.title@, body: self.body@ }
    }
}

impl DeepView for Todo {
    type V = TodoView;

    open spec fn deep_view(&self) -> TodoView {
        self@
    }
}

impl Clone for Todo {
    fn clone(&self) -> (copy: Todo)
        ensures
            copy == *self,
    {
        Todo { id: self.id, title: self.title.clone(), body: self.body.clone() }
    }
}

/// The body of a request that creates a todo. Neither field is validated.
#[derive(Debug, PartialEq, Eq)]
pub struct CreateTodo {
    pub title: String,
    pub body: String,
}

/// What a [`CreateTodo`] is to a contract.
pub struct CreateTodoView {
    pub title: Seq<char>,
    pub body: Seq<char>,
}

impl View for CreateTodo {
    type V = CreateTodoView;

    open spec fn view(&self) -> CreateTodoView {
        CreateTodoView { title: self.title@, body: self.body@ }
    }
}

impl Clone for CreateTodo {
    fn clone(&self) -> (copy: CreateTodo)
        ensures
            copy == *self,
    {
        CreateTodo { title: self.title.clone(), body: self.body.clone() }
    }
}

/// The body of every response that reports a failure.
#[derive(Debug, PartialEq, Eq)]
pub struct CreateError {
    pub status: String,
    pub message: String,
}

/// What a [`CreateError`] is to a contract.
pub struct CreateErrorView {
    pub status: Seq<char>,
    pub message: Seq<char>,
}

impl View for CreateError {
    type V = CreateErrorView;

    open spec fn view(&self) -> CreateErrorView {
        CreateErrorView { status: self.status@, message: self.message@ }
    }
}

impl Clone for CreateError {
    fn clone(&self) -> (copy: CreateError)
        ensures
            copy == *self,
    {
        CreateError { status: self.status.clone(), message: self.message.clone() }
    }
}

/// The `status` of every [`CreateError`].
pub const FAILED: &'static str = "failed";

/// The failure body that carries `message`.
pub open spec fn failure(message: Seq<char>) -> CreateErrorView {
    CreateErrorView { status: FAILED@, message }
}

impl CreateError {
    /// A failure body with the given message.
    pub fn failed(message: String) -> (error: CreateError)
        ensures
            error@ == failure(message@),
    {
        CreateError { status: FAILED.to_owned(), message }
    }
}

} // verus!
