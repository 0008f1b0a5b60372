//! The GraphQL user schema backed by MySQL: users, the input that creates
//! one, and how lookups and inserts are answered.
use vstd::prelude::*;

use crate::banking::sql::{distinct_names, exec_drop_named, exec_first_triple, exec_triples, read_rows};
use crate::ids::{is_lower_hex, random_simple_uuid};

verus! {

/// A user.
#[derive(Debug, Default)]
pub struct User {
    pub id: String,
    pub name: String,
    pub email: String,
}

/// The input that creates a user.
#[derive(Debug)]
pub struct UserInput {
    pub name: String,
    pub email: String,
}

/// An error answered to a GraphQL client: a message and one extension entry.
#[derive(Debug)]
pub struct FieldError {
    pub message: String,
    pub key: String,
    pub value: String,
}

impl User {
    /// Reads a user from a row of the `user` table: id, name, email.
    pub fn from_row(row: (String, String, String)) -> (r: User)
        ensures
            r.id == row.0,
            r.name == row.1,
            r.email == row.2,
    {
        User { id: row.0, name: row.1, email: row.2 }
    }

    /// The id of the user.
    pub fn id(&self) -> (r: &str)
        ensures
            r@ == self.id@,
    {
        self.id.as_str()
    }

    /// The name of the user.
    pub fn name(&self) -> (r: &str)
        ensures
            r@ == self.name@,
    {
        self.name.as_str()
    }

    /// The email address of the user.
    pub fn email(&self) -> (r: &str)
        ensures
            r@ == self.email@,
    {
        self.email.as_str()
    }
}

/// The root of the queries.
pub struct QueryRoot;

/// The root of the mutations.
pub struct MutationRoot;

impl QueryRoot {
    /// Answers a lookup by id once the database has answered: a failed query
    /// is `User Not Found`, a found row is the user. A query that succeeds
    /// without a row makes the resolver panic, which `requires` rules out.
    pub fn user_from_lookup(res: Result<Option<(String, String, String)>, ()>) -> (r: Result<User, FieldError>)
        requires
            !(res matches Ok(None)),
        ensures
            res is Err ==> (r matches Err(e) && e.message@ == "User Not Found"@ && e.key@ == "not_found"@
                && e.value@ == "user not found"@),
            res matches Ok(Some(row)) ==> (r matches Ok(u) && u.id == row.0 && u.name == row.1 && u.email == row.2),
    {
        match res {
            Err(()) => Err(FieldError {
                message: "User Not Found".to_owned(),
                key: "not_found".to_owned(),
                value: "user not found".to_owned(),
            }),
            Ok(Some(row)) => Ok(User::from_row(row)),
            Ok(None) => {
                proof {
                    assert(false);
                }
                Err(FieldError { message: String::new(), key: String::new(), value: String::new() })
            },
        }
    }

    /// All users, from the rows of the `user` table in order.
    pub fn users_from_rows(rows: Vec<(String, String, String)>) -> (r: Vec<User>)
        ensures
            r.len() == rows.len(),
            forall|i: int| 0 <= i < r.len() ==> (#[trigger] r[i]).id == rows[i].0 && r[i].name == rows[i].1 && r[i].email == rows[i].2,
    {
        broadcast use vstd::std_specs::vec::axiom_spec_into_iter;
        let ghost rs = rows@;
        let mut out: Vec<User> = Vec::new();
        for row in it: rows.into_iter()
            invariant
                it.seq() == rs,
                out.len() == it.index(),
                forall|i: int| 0 <= i < out.len() ==> (#[trigger] out[i]).id == rs[i].0 && out[i].name == rs[i].1 && out[i].email == rs[i].2,
        {
            out.push(User::from_row(row));
        }
        out
    }
}

/// How an insert failed: the server reported an error with a message, or
/// something else went wrong.
#[derive(Debug)]
pub enum InsertFailure {
    Server(String),
    Other,
}

/// Tells apart the errors of `mysql` that the server reported
/// (`mysql::Error::MySqlError`, whose message is taken) from the others.
#[verifier::external_body]
fn insert_failure(err: mysql::Error) -> InsertFailure {
    match err {
        mysql::Error::MySqlError(e) => InsertFailure::Server(e.message),
        _ => InsertFailure::Other,
    }
}

/// The error message that an insert failure is answered with: the server's
/// message, or `internal error`.
pub fn failure_message(f: InsertFailure) -> (r: String)
    ensures
        f matches InsertFailure::Server(m) ==> r == m,
        f is Other ==> r@ == "internal error"@,
{
    match f {
        InsertFailure::Server(m) => m,
        InsertFailure::Other => "internal error".to_owned(),
    }
}

impl MutationRoot {
    /// A fresh id for a new user: 32 random lower-case hexadecimal digits.
    pub fn new_user_id() -> (r: String)
        ensures
            r@.len() == 32,
            forall|i: int| 0 <= i < 32 ==> is_lower_hex(#[trigger] r@[i]),
    {
        random_simple_uuid()
    }

    /// Answers the creation of a user once the insert has run: the new user
    /// with the id it was given, or `Failed to create new user` with the
    /// reason under `internal_error`.
    pub fn created_user(new_id: String, user: UserInput, res: Result<(), InsertFailure>) -> (r: Result<User, FieldError>)
        ensures
            res is Ok ==> (r matches Ok(u) && u.id == new_id && u.name == user.name && u.email == user.email),
            res matches Err(f) ==> (r matches Err(e) && e.message@ == "Failed to create new user"@
                && e.key@ == "internal_error"@ && (f matches InsertFailure::Server(m) ==> e.value == m)
                && (f is Other ==> e.value@ == "internal error"@)),
    {
        match res {
            Ok(()) => Ok(User { id: new_id, name: user.name, email: user.email }),
            Err(f) => Err(FieldError {
                message: "Failed to create new user".to_owned(),
                key: "internal_error".to_owned(),
                value: failure_message(f),
            }),
        }
    }

    /// Creates a user: sends the insert that `user_insert` builds for a
    /// fresh id and the input, and answers as `created_user` does with the
    /// insert's outcome.
    pub fn create_user(conn: &mut mysql::PooledConn, user: UserInput) -> (r: Result<User, FieldError>)
        ensures
            r matches Ok(u) ==> u.name == user.name && u.email == user.email && u.id@.len() == 32
                && forall|i: int| 0 <= i < 32 ==> is_lower_hex(#[trigger] u.id@[i]),
            r matches Err(e) ==> e.message@ == "Failed to create new user"@ && e.key@ == "internal_error"@,
    {
        let new_id = Self::new_user_id();
        let (stmt, params) = user_insert(new_id.as_str(), &user);
        let res = match exec_drop_named(conn, stmt, params) {
            Ok(()) => Ok(()),
            Err(e) => Err(insert_failure(e)),
        };
        Self::created_user(new_id, user, res)
    }
}

/// The statement that stores a user.
pub const USER_INSERT: &'static str = "INSERT INTO user(id, name, email) VALUES(:id, :name, :email)";

/// The query that looks a user up by id.
pub const USER_SELECT: &'static str = "SELECT * FROM user WHERE id=:id";

/// The query that lists all users.
pub const USERS_SELECT: &'static str = "select * from user";

/// The insert that stores a user: `USER_INSERT` with `id` under `:id`, the
/// input's name under `:name` and its email under `:email`.
pub fn user_insert(id: &str, user: &UserInput) -> (r: (&'static str, Vec<(String, String)>))
    ensures
        r.0@ == USER_INSERT@,
        r.1@.len() == 3,
        r.1@[0].0@ == "id"@ && r.1@[0].1@ == id@,
        r.1@[1].0@ == "name"@ && r.1@[1].1@ == user.name@,
        r.1@[2].0@ == "email"@ && r.1@[2].1@ == user.email@,
        distinct_names(r.1@),
{
    let params = vec![
        ("id".to_owned(), id.to_owned()),
        ("name".to_owned(), user.name.clone()),
        ("email".to_owned(), user.email.clone()),
    ];
    proof {
        reveal_strlit("id");
        reveal_strlit("name");
        reveal_strlit("email");
        assert(params@[0].0@[0] != params@[1].0@[0]);
        assert(params@[0].0@[0] != params@[2].0@[0]);
        assert(params@[1].0@[0] != params@[2].0@[0]);
    }
    (USER_INSERT, params)
}

/// The query that lists all users: `USERS_SELECT`.
pub fn users_select() -> (r: &'static str)
    ensures
        r@ == USERS_SELECT@,
{
    USERS_SELECT
}

/// The lookup of a user by id: `USER_SELECT` with `id` under `:id`.
pub fn user_lookup(id: String) -> (r: (&'static str, Vec<(String, String)>))
    ensures
        r.0@ == USER_SELECT@,
        r.1@.len() == 1,
        r.1@[0].0@ == "id"@ && r.1@[0].1 == id,
        distinct_names(r.1@),
{
    (USER_SELECT, vec![("id".to_owned(), id)])
}

impl QueryRoot {
    /// Answers a lookup once the query has run: an error of the query is
    /// `User Not Found`; a row that reads as three strings is the user; no
    /// row, or a row that does not read so, is where the resolver would
    /// panic, and the answer is `None`.
    pub fn user_answer(
        res: Result<Option<Result<(String, String, String), mysql::FromRowError>>, mysql::Error>,
    ) -> (r: Option<Result<User, FieldError>>)
        ensures
            res is Err ==> (r matches Some(Err(e)) && e.message@ == "User Not Found"@ && e.key@ == "not_found"@
                && e.value@ == "user not found"@),
            res matches Ok(None) ==> r is None,
            res matches Ok(Some(Err(_))) ==> r is None,
            res matches Ok(Some(Ok(row))) ==> (r matches Some(Ok(u)) && u.id == row.0 && u.name == row.1
                && u.email == row.2),
    {
        match res {
            Ok(None) => None,
            Ok(Some(Err(_))) => None,
            Ok(Some(Ok(row))) => Some(Self::user_from_lookup(Ok(Some(row)))),
            Err(_) => Some(Self::user_from_lookup(Err(()))),
        }
    }

    /// Looks a user up by id: sends the lookup that `user_lookup` builds and
    /// answers as `user_answer` does.
    pub fn user(conn: &mut mysql::PooledConn, id: String) -> (r: Option<Result<User, FieldError>>)
        ensures
            r matches Some(Err(e)) ==> e.message@ == "User Not Found"@ && e.key@ == "not_found"@
                && e.value@ == "user not found"@,
    {
        let (stmt, params) = user_lookup(id);
        Self::user_answer(exec_first_triple(conn, stmt, params))
    }

    /// Answers a listing once the query has run: its rows as users in
    /// order, or the query's error.
    pub fn users_answer(rows: Result<Vec<(String, String, String)>, mysql::Error>) -> (r: Result<Vec<User>, mysql::Error>)
        ensures
            rows matches Err(e) ==> r == Err::<Vec<User>, mysql::Error>(e),
            rows matches Ok(v) ==> (r matches Ok(us) && us.len() == v.len() && forall|i: int|
                0 <= i < v.len() ==> (#[trigger] us[i]).id == v[i].0 && us[i].name == v[i].1 && us[i].email == v[i].2),
    {
        match rows {
            Ok(v) => Ok(Self::users_from_rows(v)),
            Err(e) => Err(e),
        }
    }

    /// All users: runs the query `users_select` gives, fails when a row
    /// does not read as three strings, and answers as `users_answer` does.
    pub fn users(conn: &mut mysql::PooledConn) -> (r: Result<Vec<User>, mysql::Error>)
    {
        Self::users_answer(read_rows(exec_triples(conn, users_select())))
    }
}

} // verus!
