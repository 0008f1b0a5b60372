//! Version 1 of the API.
use vstd::prelude::*;

use super::{header_equals, header_is, header_view};

verus! {

/// Admits requests whose `Accept-Version` header is `1`.
pub struct ApiGuard;

impl ApiGuard {
    /// Whether the request's `Accept-Version` header value (if any) is
    /// exactly `1`.
    pub fn check(&self, accept_version: Option<&[u8]>) -> (r: bool)
        ensures
            r == header_is(header_view(accept_version), 0x31),
    {
        header_equals(accept_version, 0x31)
    }
}

/// The greeting of this version.
pub open spec fn hello_text() -> Seq<char> {
    "Hello World from v1 API!"@
}

/// Answers `GET /api/hello`.
pub fn hello() -> (r: &'static str)
    ensures
        r@ == hello_text(),
{
    "Hello World from v1 API!"
}

} // verus!
