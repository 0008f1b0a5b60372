//! API versioning by request header: `Accept-Version: 1` reaches the first
//! version of the API, `Accept-Version: 2` the second.
use vstd::prelude::*;

pub mod v1;
pub mod v2;

verus! {

/// The header the guards read.
pub const VERSION_HEADER: &'static str = "Accept-Version";

/// The header that responses carry so that caches keep the versions apart:
/// `Vary: Accept-Version`.
pub fn vary_header() -> (r: (&'static str, &'static str))
    ensures
        r.0@ == "Vary"@,
        r.1@ == VERSION_HEADER@,
{
    ("Vary", VERSION_HEADER)
}

/// Whether a header value is exactly the one byte `version`.
pub open spec fn header_is(value: Option<Seq<u8>>, version: u8) -> bool {
    value matches Some(v) && v == seq![version]
}

/// The view of an optional header value.
pub open spec fn header_view(value: Option<&[u8]>) -> Option<Seq<u8>> {
    match value {
        Some(v) => Some(v@),
        None => None,
    }
}

/// Compares a header value with a one-byte version.
pub fn header_equals(value: Option<&[u8]>, version: u8) -> (r: bool)
    ensures
        r == header_is(header_view(value), version),
{
    match value {
        Some(v) => {
            let r = v.len() == 1 && v[0] == version;
            proof {
                if r {
                    assert(v@ =~= seq![version]);
                }
            }
            r
        },
        None => false,
    }
}

/// The API versions an application can route to.
#[derive(Debug, Clone, Copy, PartialEq, Eq, Structural)]
pub enum ApiVersion {
    V1,
    V2,
}

/// Which scope answers `/api/hello`: the scopes are tried in order, the
/// first version's first; a request that neither guard admits is not routed.
pub fn route_hello(accept_version: Option<&[u8]>) -> (r: Option<ApiVersion>)
    ensures
        r == (if header_is(header_view(accept_version), 0x31) {
            Some(ApiVersion::V1)
        } else if header_is(header_view(accept_version), 0x32) {
            Some(ApiVersion::V2)
        } else {
            None::<ApiVersion>
        }),
{
    if v1::ApiGuard.check(accept_version) {
        Some(ApiVersion::V1)
    } else if v2::ApiGuard.check(accept_version) {
        Some(ApiVersion::V2)
    } else {
        None
    }
}

/// The text that the routed scope answers with.
pub fn hello_for(version: ApiVersion) -> (r: &'static str)
    ensures
        version == ApiVersion::V1 ==> r@ == v1::hello_text(),
        version == ApiVersion::V2 ==> r@ == v2::hello_text(),
{
    match version {
        ApiVersion::V1 => v1::hello(),
        ApiVersion::V2 => v2::hello(),
    }
}

/// No request is admitted by both versions' guards.
pub proof fn lemma_guards_exclusive(value: Option<Seq<u8>>)
    ensures
        !(header_is(value, 0x31) && header_is(value, 0x32)),
{
    if let Some(v) = value {
        if v == seq![0x31u8] && v == seq![0x32u8] {
            assert(seq![0x31u8][0] == 0x31u8);
            assert(seq![0x32u8][0] == 0x32u8);
        }
    }
}

} // verus!
