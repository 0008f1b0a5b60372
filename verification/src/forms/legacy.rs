//! The first version of the form handlers, which answer as the current ones.
use vstd::prelude::*;

use super::{is_plain_ok, name_greeting, plain_ok, state_greeting, greet_name, greet_with_state, AppState, TextResponse};

verus! {

/// The parameters of the posted form.
#[derive(Debug)]
pub struct MyParams {
    pub name: String,
}

/// Simple handling of a POST request.
pub fn handle_post_1(params: &MyParams) -> (r: TextResponse)
    ensures
        is_plain_ok(r, name_greeting(params.name@)),
{
    plain_ok(greet_name(params.name.as_str()))
}

/// State and POST parameters.
pub fn handle_post_2(state: &AppState, params: &MyParams) -> (r: TextResponse)
    ensures
        is_plain_ok(r, state_greeting(params.name@, state.foo@)),
{
    plain_ok(greet_with_state(params.name.as_str(), state.foo.as_str()))
}

/// Request and POST parameters: the request is only logged.
pub fn handle_post_3(params: &MyParams) -> (r: TextResponse)
    ensures
        is_plain_ok(r, name_greeting(params.name@)),
{
    plain_ok(greet_name(params.name.as_str()))
}

} // verus!
