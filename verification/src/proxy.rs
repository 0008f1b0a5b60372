//! Forwarding HTTP requests to another server: which path is forwarded,
//! how the client's address is passed on, and which response headers come
//! back.
use vstd::prelude::*;

use crate::text::str_equal;

verus! {

/// Requests under this path prefix are forwarded with the second client.
pub const REQWEST_PREFIX: &'static str = "/using-reqwest";

/// The path forwarded for a request under `prefix`: the request's path with
/// the prefix taken off, or the whole path when it does not start with it.
pub open spec fn spec_strip_prefix(path: Seq<char>, prefix: Seq<char>) -> Seq<char> {
    if prefix.len() <= path.len() && path.subrange(0, prefix.len() as int) == prefix {
        path.subrange(prefix.len() as int, path.len() as int)
    } else {
        path
    }
}

/// Takes `prefix` off the front of `path` when it is there.
pub fn strip_prefix<'a>(path: &'a str, prefix: &str) -> (r: &'a str)
    ensures
        r@ == spec_strip_prefix(path@, prefix@),
{
    let n = path.unicode_len();
    let m = prefix.unicode_len();
    if m > n {
        return path;
    }
    let head = path.substring_char(0, m);
    if str_equal(head, prefix) {
        path.substring_char(m, n)
    } else {
        path
    }
}

/// The path that the second client forwards.
pub fn forward_path(path: &str) -> (r: &str)
    ensures
        r@ == spec_strip_prefix(path@, REQWEST_PREFIX@),
{
    strip_prefix(path, REQWEST_PREFIX)
}

/// The text of an optional string.
pub open spec fn opt_chars(s: Option<String>) -> Option<Seq<char>> {
    match s {
        Some(t) => Some(t@),
        None => None,
    }
}

/// The text of an optional string slice.
pub open spec fn opt_str_chars(s: Option<&str>) -> Option<Seq<char>> {
    match s {
        Some(t) => Some(t@),
        None => None,
    }
}

/// The URL that `url::Url::parse(base)` gives once `set_path(path)` and
/// `set_query(query)` are applied to it, as text (with the percent-encoding
/// and normalisation that `url` does); none when `base` is not a URL.
pub uninterp spec fn spec_join_url(base: Seq<char>, path: Seq<char>, query: Option<Seq<char>>) -> Option<Seq<char>>;

/// The number of characters that go into a joined URL.
pub open spec fn url_input_len(base: Seq<char>, path: Seq<char>, query: Option<Seq<char>>) -> int {
    base.len() + path.len() + match query {
        Some(q) => q.len() as int,
        None => 0,
    }
}

/// Calls `url::Url::parse` on `base`, then `Url::set_path` and
/// `Url::set_query`, and gives the URL as text; a base that does not parse
/// gives nothing. The result is the named `spec_join_url` of the arguments.
/// `url` keeps positions in its text as `u32` and panics past that size,
/// which the bound on the inputs rules out (a character takes at most four
/// bytes, and percent-encoding at most triples them).
#[verifier::external_body]
fn join_url(base: &str, path: &str, query: Option<&str>) -> (r: Option<String>)
    requires
        url_input_len(base@, path@, opt_str_chars(query)) <= 0x1000_0000,
    ensures
        opt_chars(r) == spec_join_url(base@, path@, opt_str_chars(query)),
{
    match url::Url::parse(base) {
        Ok(mut u) => {
            u.set_path(path);
            u.set_query(query);
            Some(u.as_str().to_owned())
        },
        Err(_) => None,
    }
}

/// The URL the first client forwards a request to: the upstream URL with
/// the request's path and query.
pub fn forward_url(base: &str, path: &str, query: Option<&str>) -> (r: Option<String>)
    requires
        url_input_len(base@, path@, opt_str_chars(query)) <= 0x1000_0000,
    ensures
        opt_chars(r) == spec_join_url(base@, path@, opt_str_chars(query)),
{
    join_url(base, path, query)
}

/// The URL the second client forwards a request to: the upstream URL with
/// the request's path, the `/using-reqwest` prefix taken off, and its query.
pub fn forward_reqwest_url(base: &str, path: &str, query: Option<&str>) -> (r: Option<String>)
    requires
        url_input_len(base@, path@, opt_str_chars(query)) <= 0x1000_0000,
    ensures
        opt_chars(r) == spec_join_url(base@, spec_strip_prefix(path@, REQWEST_PREFIX@), opt_str_chars(query)),
{
    let p = forward_path(path);
    join_url(base, p, query)
}

/// One HTTP header: a lower-case name and a value.
#[derive(Debug)]
pub struct Header {
    pub name: String,
    pub value: Vec<u8>,
}

/// Whether a header of the same name as the `i`-th comes after it.
pub open spec fn name_later(hs: Seq<Header>, i: int) -> bool {
    exists|j: int| i < j < hs.len() && (#[trigger] hs[j]).name@ == hs[i].name@
}

/// Whether the `i`-th header of a response reaches the client: it is not
/// `connection`, and no later header has its name, since each header set on
/// the answer replaces the one of the same name set before.
pub open spec fn kept(hs: Seq<Header>, i: int) -> bool {
    hs[i].name@ != "connection"@ && !name_later(hs, i)
}

/// The headers among the first `n` that reach the client, in order.
pub open spec fn kept_upto(hs: Seq<Header>, n: int) -> Seq<Header>
    decreases n,
{
    if n <= 0 {
        Seq::empty()
    } else if kept(hs, n - 1) {
        kept_upto(hs, n - 1).push(hs[n - 1])
    } else {
        kept_upto(hs, n - 1)
    }
}

/// The headers of the forwarded response that reach the client, in order:
/// for each name but `connection`, the last header of that name.
pub open spec fn passed_back(headers: Seq<Header>) -> Seq<Header> {
    kept_upto(headers, headers.len() as int)
}

/// Whether no header after the `i`-th has its name.
fn last_of_name(headers: &Vec<Header>, i: usize) -> (r: bool)
    requires
        i < headers.len(),
    ensures
        r == !name_later(headers@, i as int),
{
    let n = headers.len();
    let mut j: usize = i + 1;
    while j < n
        invariant
            i < j <= n,
            n == headers.len(),
            forall|k: int| i < k < j ==> (#[trigger] headers@[k]).name@ != headers@[i as int].name@,
        decreases n - j,
    {
        if str_equal(headers[j].name.as_str(), headers[i].name.as_str()) {
            assert(headers@[j as int].name@ == headers@[i as int].name@);
            return false;
        }
        j = j + 1;
    }
    true
}

/// The headers of a response as the client gets them: `connection` is
/// dropped, and of several headers of one name only the last is kept, the
/// others keeping their order.
pub fn response_headers(headers: Vec<Header>) -> (r: Vec<Header>)
    ensures
        r@ == passed_back(headers@),
{
    broadcast use vstd::std_specs::vec::axiom_spec_into_iter;
    let ghost hs = headers@;
    let n = headers.len();
    let mut keep: Vec<bool> = Vec::new();
    let mut i: usize = 0;
    while i < n
        invariant
            i <= n,
            n == headers.len(),
            hs == headers@,
            keep.len() == i,
            forall|k: int| 0 <= k < i ==> keep@[k] == kept(hs, k),
        decreases n - i,
    {
        let k = !str_equal(headers[i].name.as_str(), "connection") && last_of_name(&headers, i);
        keep.push(k);
        i = i + 1;
    }
    let mut out: Vec<Header> = Vec::new();
    let mut idx: usize = 0;
    for h in it: headers.into_iter()
        invariant
            it.seq() == hs,
            idx == it.index(),
            keep.len() == hs.len(),
            forall|k: int| 0 <= k < hs.len() ==> keep@[k] == kept(hs, k),
            out@ == kept_upto(hs, idx as int),
    {
        assert(hs[idx as int] == h);
        if keep[idx] {
            out.push(h);
        }
        idx = idx + 1;
    }
    out
}

/// Whether `h` is a kept header among the first `n`.
pub open spec fn kept_among(hs: Seq<Header>, n: int, h: Header) -> bool {
    exists|k: int| 0 <= k < n && kept(hs, k) && h == #[trigger] hs[k]
}

/// Every header among the first `n` that reaches the client is a kept
/// header, and every kept one among them reaches it.
proof fn lemma_kept_upto(hs: Seq<Header>, n: int)
    requires
        0 <= n <= hs.len(),
    ensures
        forall|i: int| 0 <= i < kept_upto(hs, n).len() ==> kept_among(hs, n, #[trigger] kept_upto(hs, n)[i]),
        forall|k: int| 0 <= k < n && kept(hs, k) ==> kept_upto(hs, n).contains(#[trigger] hs[k]),
    decreases n,
{
    if n > 0 {
        lemma_kept_upto(hs, n - 1);
        let p = kept_upto(hs, n - 1);
        assert forall|i: int| 0 <= i < kept_upto(hs, n).len() implies kept_among(hs, n, #[trigger] kept_upto(hs, n)[i]) by {
            if i < p.len() {
                assert(kept_upto(hs, n)[i] == p[i]);
                assert(kept_among(hs, n - 1, p[i]));
                let k = choose|k: int| 0 <= k < n - 1 && kept(hs, k) && p[i] == #[trigger] hs[k];
                assert(0 <= k < n && kept(hs, k) && kept_upto(hs, n)[i] == hs[k]);
            } else {
                assert(kept(hs, n - 1) && kept_upto(hs, n)[i] == hs[n - 1]);
            }
        }
        assert forall|k: int| 0 <= k < n && kept(hs, k) implies kept_upto(hs, n).contains(#[trigger] hs[k]) by {
            if k < n - 1 {
                assert(p.contains(hs[k]));
                let j = choose|j: int| 0 <= j < p.len() && p[j] == hs[k];
                assert(kept_upto(hs, n)[j] == hs[k]);
            } else {
                assert(kept_upto(hs, n)[p.len() as int] == hs[k]);
            }
        }
    }
}

/// No `connection` header reaches the client; every header that does is the
/// last of its name in the response; and the last header of each other name
/// does reach it.
pub proof fn lemma_only_connection_dropped(headers: Seq<Header>)
    ensures
        forall|i: int| 0 <= i < passed_back(headers).len() ==> (#[trigger] passed_back(headers)[i]).name@ != "connection"@,
        forall|i: int| 0 <= i < passed_back(headers).len() ==> kept_among(headers, headers.len() as int, #[trigger] passed_back(headers)[i]),
        forall|k: int| 0 <= k < headers.len() && kept(headers, k) ==> passed_back(headers).contains(#[trigger] headers[k]),
{
    lemma_kept_upto(headers, headers.len() as int);
}

/// The `x-forwarded-for` value that the first proxy sends: an existing value
/// gets the client's address appended after a comma, otherwise the address
/// alone is sent.
pub open spec fn spec_forwarded_for(existing: Option<Seq<char>>, ip: Seq<char>) -> Seq<char> {
    match existing {
        Some(e) => e + ", "@ + ip,
        None => ip,
    }
}

/// Builds the `x-forwarded-for` value from the one the request carried.
pub fn forwarded_for(existing: Option<&str>, ip: &str) -> (r: String)
    ensures
        r@ == spec_forwarded_for(
            match existing {
                Some(e) => Some(e@),
                None => None,
            },
            ip@,
        ),
{
    match existing {
        Some(e) => {
            let mut s = e.to_owned();
            s.append(", ");
            s.append(ip);
            s
        },
        None => ip.to_owned(),
    }
}

} // verus!
