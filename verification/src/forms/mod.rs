//! Form handling: greeting the name posted in a form, with or without the
//! application's state.
use vstd::prelude::*;

pub mod legacy;

verus! {

/// A plain-text HTTP answer.
#[derive(Debug)]
pub struct TextResponse {
    pub status: u16,
    pub content_type: String,
    pub body: String,
}

/// Whether `r` is a 200 answer of type `text/plain` with the body `body`.
pub open spec fn is_plain_ok(r: TextResponse, body: Seq<char>) -> bool {
    &&& r.status == 200
    &&& r.content_type@ == "text/plain"@
    &&& r.body@ == body
}

/// The greeting of a posted name.
pub open spec fn name_greeting(name: Seq<char>) -> Seq<char> {
    "Your name is "@ + name
}

/// The greeting of a posted name that also reports the state's `foo`.
pub open spec fn state_greeting(name: Seq<char>, foo: Seq<char>) -> Seq<char> {
    "Your name is "@ + name + ", and in AppState I have foo: "@ + foo
}

/// Builds the greeting of a posted name.
pub fn greet_name(name: &str) -> (r: String)
    ensures
        r@ == name_greeting(name@),
{
    let mut s = "Your name is ".to_owned();
    s.append(name);
    s
}

/// Builds the greeting that also reports the state's `foo`.
pub fn greet_with_state(name: &str, foo: &str) -> (r: String)
    ensures
        r@ == state_greeting(name@, foo@),
{
    let mut s = "Your name is ".to_owned();
    s.append(name);
    s.append(", and in AppState I have foo: ");
    s.append(foo);
    s
}

/// Answers with a 200 plain-text body.
pub fn plain_ok(body: String) -> (r: TextResponse)
    ensures
        is_plain_ok(r, body@),
{
    TextResponse { status: 200, content_type: "text/plain".to_owned(), body }
}

/// The application's state.
pub struct AppState {
    pub foo: String,
}

impl AppState {
    /// The state the application starts with: `foo` is `bar`.
    pub fn new() -> (r: AppState)
        ensures
            r.foo@ == "bar"@,
    {
        AppState { foo: "bar".to_owned() }
    }
}

/// The parameters of the posted form.
#[derive(Debug)]
pub struct MyParams {
    pub name: String,
}

/// Simple handling of a POST request.
pub fn handle_post_1(params: &MyParams) -> (r: TextResponse)
    ensures
        is_plain_ok(r, name_greeting(params.name@)),
{
    plain_ok(greet_name(params.name.as_str()))
}

/// State and POST parameters.
pub fn handle_post_2(state: &AppState, params: &MyParams) -> (r: TextResponse)
    ensures
        is_plain_ok(r, state_greeting(params.name@, state.foo@)),
{
    plain_ok(greet_with_state(params.name.as_str(), state.foo.as_str()))
}

/// Request and POST parameters: the request is only logged.
pub fn handle_post_3(params: &MyParams) -> (r: TextResponse)
    ensures
        is_plain_ok(r, name_greeting(params.name@)),
{
    plain_ok(greet_name(params.name.as_str()))
}

} // verus!
