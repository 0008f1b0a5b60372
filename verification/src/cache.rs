//! Caching three values in Redis and deleting them again: which keys are
//! used and how the server's replies are answered.
use vstd::prelude::*;

use crate::text::str_equal;

verus! {

/// The three values a client asks to cache.
#[derive(Debug)]
pub struct CacheInfo {
    pub one: String,
    pub two: String,
    pub three: String,
}

/// A reply of the Redis server, as far as the handlers read it.
#[derive(Debug)]
pub enum RespValue {
    SimpleString(String),
    Integer(i64),
    Other,
}

/// An HTTP answer with a status and a text body.
#[derive(Debug)]
pub struct CacheResponse {
    pub status: u16,
    pub body: String,
}

/// Whether `r` has the status `status` and the body `body`.
pub open spec fn answers(r: CacheResponse, status: u16, body: Seq<char>) -> bool {
    r.status == status && r.body@ == body
}

/// The key each of the three values is stored under, by the actor-based
/// handlers.
pub fn actor_keys() -> (r: [&'static str; 3])
    ensures
        r[0]@ == "mydomain:one"@,
        r[1]@ == "mydomain:two"@,
        r[2]@ == "mydomain:three"@,
{
    ["mydomain:one", "mydomain:two", "mydomain:three"]
}

/// The key each of the three values is stored under, by the client-based
/// handlers.
pub fn client_keys() -> (r: [&'static str; 3])
    ensures
        r[0]@ == "my_domain:one"@,
        r[1]@ == "my_domain:two"@,
        r[2]@ == "my_domain:three"@,
{
    ["my_domain:one", "my_domain:two", "my_domain:three"]
}

/// The key–value pairs to store for a cache request, in key order.
pub fn cache_pairs(info: CacheInfo, keys: [&'static str; 3]) -> (r: Vec<(&'static str, String)>)
    ensures
        r@.len() == 3,
        r@[0] == (keys[0], info.one),
        r@[1] == (keys[1], info.two),
        r@[2] == (keys[2], info.three),
{
    let mut v = Vec::new();
    v.push((keys[0], info.one));
    v.push((keys[1], info.two));
    v.push((keys[2], info.three));
    v
}

/// Whether a reply is the simple string `OK`.
pub open spec fn is_ok_reply(r: Result<RespValue, ()>) -> bool {
    r matches Ok(RespValue::SimpleString(s)) && s@ == "OK"@
}

/// Checks one reply for the simple string `OK`.
pub fn reply_is_ok(r: &Result<RespValue, ()>) -> (b: bool)
    ensures
        b == is_ok_reply(*r),
{
    match r {
        Ok(RespValue::SimpleString(s)) => str_equal(s.as_str(), "OK"),
        _ => false,
    }
}

/// Answers the caching of the values once each `SET` has replied: 200 with
/// a confirmation when every reply is `OK`, 500 otherwise.
pub fn cache_reply(replies: &Vec<Result<RespValue, ()>>) -> (r: CacheResponse)
    ensures
        (forall|i: int| 0 <= i < replies.len() ==> is_ok_reply(#[trigger] replies[i])) ==> answers(r, 200, "successfully cached values"@),
        !(forall|i: int| 0 <= i < replies.len() ==> is_ok_reply(#[trigger] replies[i])) ==> answers(r, 500, Seq::empty()),
{
    let mut i: usize = 0;
    while i < replies.len()
        invariant
            i <= replies.len(),
            forall|j: int| 0 <= j < i ==> is_ok_reply(#[trigger] replies[j]),
        decreases replies.len() - i,
    {
        if !reply_is_ok(&replies[i]) {
            return CacheResponse { status: 500, body: String::new() };
        }
        i = i + 1;
    }
    CacheResponse { status: 200, body: "successfully cached values".to_owned() }
}

/// Answers the deletion of the values once `DEL` has replied: 200 with a
/// confirmation when it deleted all three keys, 500 otherwise.
pub fn delete_reply(reply: &Result<RespValue, ()>) -> (r: CacheResponse)
    ensures
        (reply matches Ok(RespValue::Integer(x)) && x == 3) ==> answers(r, 200, "successfully deleted values"@),
        !(reply matches Ok(RespValue::Integer(x)) && x == 3) ==> answers(r, 500, Seq::empty()),
{
    match reply {
        Ok(RespValue::Integer(x)) => if *x == 3 {
            CacheResponse { status: 200, body: "successfully deleted values".to_owned() }
        } else {
            CacheResponse { status: 500, body: String::new() }
        },
        _ => CacheResponse { status: 500, body: String::new() },
    }
}

/// Answers a multi-set once the server has replied with its status text.
pub fn mset_reply(status: &str) -> (r: CacheResponse)
    ensures
        status@ == "OK"@ ==> answers(r, 200, "successfully cached values"@),
        status@ != "OK"@ ==> answers(r, 500, Seq::empty()),
{
    if str_equal(status, "OK") {
        CacheResponse { status: 200, body: "successfully cached values".to_owned() }
    } else {
        CacheResponse { status: 500, body: String::new() }
    }
}

/// Answers a deletion once the server has replied with the number of keys it
/// deleted.
pub fn del_count_reply(deleted: usize) -> (r: CacheResponse)
    ensures
        deleted == 3 ==> answers(r, 200, "successfully deleted values"@),
        deleted != 3 ==> answers(r, 500, Seq::empty()),
{
    if deleted == 3 {
        CacheResponse { status: 200, body: "successfully deleted values".to_owned() }
    } else {
        CacheResponse { status: 500, body: String::new() }
    }
}

} // verus!
