//! A JSON-RPC service over a small network object: `ping`, `wait`, `get` and
//! `inc`.
use vstd::prelude::*;

use crate::text::str_equal;

verus! {

/// Code of a request body that is not valid JSON-RPC.
pub const PARSE_ERROR: i32 = -32700;
/// Code of a call to a method the service does not have.
pub const METHOD_NOT_FOUND: i32 = -32601;
/// Code of a call whose parameters do not fit the method.
pub const INVALID_PARAMS: i32 = -32602;
/// Code of a failure while the method ran.
pub const INTERNAL_FAILURE: i32 = 500;

/// The network object the service runs its methods on.
pub trait ImplNetwork {
    /// Whether `inc` can run without the counter overflowing.
    spec fn can_inc(&self) -> bool;

    /// Answers a liveness check.
    fn ping(&self) -> String;

    /// Reads the counter.
    fn get(&self) -> u32;

    /// Adds one to the counter.
    fn inc(&mut self)
        requires
            old(self).can_inc(),
    ;
}

/// A network object that keeps a counter.
pub struct ObjNetwork {
    pub c: u32,
}

impl ObjNetwork {
    /// A network object whose counter is 0.
    pub fn new() -> (r: Self)
        ensures
            r.c == 0,
    {
        Self { c: 0 }
    }
}

impl ImplNetwork for ObjNetwork {
    open spec fn can_inc(&self) -> bool {
        self.c < u32::MAX
    }

    fn ping(&self) -> (r: String)
        ensures
            r@ == "pong"@,
    {
        "pong".to_owned()
    }

    fn get(&self) -> (r: u32)
        ensures
            r == self.c,
    {
        self.c
    }

    fn inc(&mut self)
        ensures
            final(self).c == old(self).c + 1,
    {
        self.c = self.c + 1;
    }
}

/// The value a method answers with.
#[derive(Debug)]
pub enum RpcValue {
    Null,
    Str(String),
    Num(u32),
}

/// An error in the service's answer: one of the protocol's own codes, or a
/// code with the service's own message.
#[derive(Debug)]
pub enum ErrorData {
    Std(i32),
    Custom(i32, String),
}

/// What the service does next: answer now, or wait the given number of
/// seconds and then answer with the outcome of the wait.
#[derive(Debug)]
pub enum RpcStep {
    Reply(RpcValue),
    Wait(u64),
}

/// Whether the parameters fit `wait`: exactly one, an unsigned integer.
pub open spec fn wait_param(params: Seq<Option<u64>>) -> Option<u64> {
    if params.len() == 1 && params[0] is Some {
        params[0]
    } else {
        None
    }
}

/// What a call comes to, in terms of the counter: `pong`, the counter's
/// value, done (null), a wait of some seconds, or an error code.
pub enum RpcOutcome {
    Pong,
    Count(u32),
    Done,
    Wait(u64),
    Fail(i32),
}

/// The outcome of calling `method` with `params` on a network whose counter
/// is `c`, with the counter afterwards. `params` holds, for each parameter,
/// its value when it is an unsigned integer. `ping` answers `pong`; `wait`
/// with one unsigned parameter waits that many seconds, otherwise the
/// parameters are invalid; `get` reads the counter; `inc` adds one to it and
/// answers null; any other method is not found.
pub open spec fn spec_rpc(c: u32, method: Seq<char>, params: Seq<Option<u64>>) -> (RpcOutcome, u32) {
    if method == "ping"@ {
        (RpcOutcome::Pong, c)
    } else if method == "wait"@ {
        match wait_param(params) {
            Some(d) => (RpcOutcome::Wait(d), c),
            None => (RpcOutcome::Fail(INVALID_PARAMS), c),
        }
    } else if method == "get"@ {
        (RpcOutcome::Count(c), c)
    } else if method == "inc"@ {
        (RpcOutcome::Done, (c + 1) as u32)
    } else {
        (RpcOutcome::Fail(METHOD_NOT_FOUND), c)
    }
}

/// Whether the service's answer `r` is the outcome `o`.
pub open spec fn answers_with(r: Result<RpcStep, ErrorData>, o: RpcOutcome) -> bool {
    match o {
        RpcOutcome::Pong => r matches Ok(RpcStep::Reply(RpcValue::Str(s))) && s@ == "pong"@,
        RpcOutcome::Count(v) => r matches Ok(RpcStep::Reply(RpcValue::Num(n))) && n == v,
        RpcOutcome::Done => r matches Ok(RpcStep::Reply(RpcValue::Null)),
        RpcOutcome::Wait(d) => r matches Ok(RpcStep::Wait(w)) && w == d,
        RpcOutcome::Fail(code) => r matches Err(ErrorData::Std(k)) && k == code,
    }
}

/// Runs one call on the network, as `spec_rpc` describes. `inc` on a counter
/// at its maximum would overflow, which `requires` rules out.
pub fn rpc_select(network: &mut ObjNetwork, method: &str, params: &Vec<Option<u64>>) -> (r: Result<RpcStep, ErrorData>)
    requires
        method@ == "inc"@ ==> old(network).c < u32::MAX,
    ensures
        answers_with(r, spec_rpc(old(network).c, method@, params@).0),
        final(network).c == spec_rpc(old(network).c, method@, params@).1,
{
    proof {
        reveal_strlit("ping");
        reveal_strlit("wait");
        reveal_strlit("get");
        reveal_strlit("inc");
        assert("get"@.len() == 3 && "wait"@.len() == 4 && "ping"@.len() == 4 && "inc"@.len() == 3);
        assert("get"@[0] != "inc"@[0] && "ping"@[0] != "wait"@[0]);
    }
    if str_equal(method, "ping") {
        Ok(RpcStep::Reply(RpcValue::Str(network.ping())))
    } else if str_equal(method, "wait") {
        if params.len() != 1 || params[0].is_none() {
            return Err(ErrorData::Std(INVALID_PARAMS));
        }
        match params[0] {
            Some(d) => Ok(RpcStep::Wait(d)),
            None => Err(ErrorData::Std(INVALID_PARAMS)),
        }
    } else if str_equal(method, "get") {
        Ok(RpcStep::Reply(RpcValue::Num(network.get())))
    } else if str_equal(method, "inc") {
        network.inc();
        Ok(RpcStep::Reply(RpcValue::Null))
    } else {
        Err(ErrorData::Std(METHOD_NOT_FOUND))
    }
}

/// The answer to `wait` once the wait is over: its text, or an internal
/// failure that carries the error's description.
pub fn wait_outcome(res: Result<String, String>) -> (r: Result<RpcValue, ErrorData>)
    ensures
        match res {
            Ok(s) => (r matches Ok(RpcValue::Str(t)) && t == s),
            Err(e) => (r matches Err(ErrorData::Custom(code, m)) && code == INTERNAL_FAILURE && m == e),
        },
{
    match res {
        Ok(s) => Ok(RpcValue::Str(s)),
        Err(e) => Err(ErrorData::Custom(INTERNAL_FAILURE, e)),
    }
}

/// `get` right after `inc` reads one more than the counter held before.
pub proof fn lemma_inc_then_get(c: u32)
    requires
        c < u32::MAX,
    ensures
        spec_rpc(spec_rpc(c, "inc"@, Seq::empty()).1, "get"@, Seq::empty()).0 == RpcOutcome::Count((c + 1) as u32),
{
    reveal_strlit("ping");
    reveal_strlit("wait");
    reveal_strlit("get");
    reveal_strlit("inc");
    assert("get"@.len() == 3 && "wait"@.len() == 4 && "ping"@.len() == 4 && "inc"@.len() == 3);
    assert("get"@[0] != "inc"@[0]);
}

/// Only `inc` changes the counter.
pub proof fn lemma_only_inc_changes_counter(c: u32, method: Seq<char>, params: Seq<Option<u64>>)
    requires
        method != "inc"@,
    ensures
        spec_rpc(c, method, params).1 == c,
{
}

} // verus!
