//! The records that the database-backed services store and return, and the
//! answers of their handlers.
use vstd::prelude::*;

verus! {

/// A user as the document store keeps it.
#[derive(Debug, Clone)]
pub struct User {
    pub first_name: String,
    pub last_name: String,
    pub username: String,
    pub email: String,
}

/// A user to add to the `users` collection of the service.
#[derive(Debug)]
pub struct NewUser {
    pub name: String,
    pub email: String,
}

/// An HTTP answer with a status and a text body.
#[derive(Debug)]
pub struct Reply {
    pub status: u16,
    pub body: String,
}

/// Answers the insertion of a user: 200 `user added`, or 500 with the
/// store's description of its error.
pub fn add_user_reply(res: Result<(), String>) -> (r: Reply)
    ensures
        res is Ok ==> r.status == 200 && r.body@ == "user added"@,
        res matches Err(e) ==> r.status == 500 && r.body == e,
{
    match res {
        Ok(()) => Reply { status: 200, body: "user added".to_owned() },
        Err(e) => Reply { status: 500, body: e },
    }
}

/// The body of the 404 answer to a lookup of an unknown username.
pub fn user_not_found(username: &str) -> (r: String)
    ensures
        r@ == "No user found with username "@ + username@,
{
    let mut s = "No user found with username ".to_owned();
    s.append(username);
    s
}

/// A todo as the client sends it.
#[derive(Debug)]
pub struct TodoRequest {
    pub description: String,
    pub done: bool,
}

/// A todo as the database keeps it.
#[derive(Debug)]
pub struct Todo {
    pub id: i32,
    pub description: String,
    pub done: bool,
}

impl Todo {
    /// The todo that a request updates the todo with id `id` to.
    pub fn updated(id: i32, todo: TodoRequest) -> (r: Todo)
        ensures
            r.id == id,
            r.description == todo.description,
            r.done == todo.done,
    {
        Todo { id, description: todo.description, done: todo.done }
    }

    /// Whether an update that changed `n` rows found its todo; when it did
    /// not, the update answers with nothing.
    pub fn update_found(n: u64) -> (r: bool)
        ensures
            r == (n != 0),
    {
        n != 0
    }
}

/// New item details.
#[derive(Debug, Clone, Default)]
pub struct NewItem {
    pub name: String,
}

impl NewItem {
    /// Constructs new item details from a name.
    pub fn new(name: &str) -> (r: NewItem)
        ensures
            r.name@ == name@,
    {
        NewItem { name: name.to_owned() }
    }
}

} // verus!
