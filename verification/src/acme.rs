//! Obtaining a TLS certificate over ACME with HTTP challenges: the account's
//! contact, where challenge proofs are placed, and the steps of an order.
use vstd::prelude::*;

verus! {

/// The route that serves challenge files.
pub const CHALLENGE_ROUTE: &'static str = "/.well-known/acme-challenge";

/// The directory challenge files are written to and served from.
pub const CHALLENGE_FILES: &'static str = "acme-challenge";

/// How long, in milliseconds, to wait between polls of a challenge.
pub const VALIDATE_POLL_MS: u64 = 5000;

/// How long, in seconds, the server runs before it restarts to renew its
/// certificate: four weeks.
pub fn restart_after_secs() -> (r: u64)
    ensures
        r == 60 * 60 * 24 * 28,
{
    60 * 60 * 24 * 28
}

/// The contact addresses an account is registered with: the e-mail address
/// as a `mailto:` URL.
pub fn contact(email: &str) -> (r: Vec<String>)
    ensures
        r.len() == 1,
        r[0]@ == "mailto:"@ + email@,
{
    let mut m = "mailto:".to_owned();
    m.append(email);
    let mut v = Vec::new();
    v.push(m);
    v
}

/// The file that the proof of the challenge with this token is written to.
pub fn challenge_path(token: &str) -> (r: String)
    ensures
        r@ == "acme-challenge/"@ + token@,
{
    let mut p = "acme-challenge/".to_owned();
    p.append(token);
    p
}

/// What to do next with an order.
#[derive(Debug)]
pub enum OrderStep {
    /// The domain is validated: create a key and finalize the order.
    Finalize,
    /// Write `proof` to `path`, ask the provider to validate, refresh, and
    /// ask again.
    Prove { path: String, proof: String },
    /// Give up with this message.
    Fail(&'static str),
}

/// The step an order takes: finalize once its validations are confirmed;
/// otherwise answer the HTTP challenge of its first authorization (given as
/// token and proof when there is one), or fail when it has none.
pub fn order_step(confirmed: bool, http_challenge: Option<(String, String)>) -> (r: OrderStep)
    ensures
        confirmed ==> r is Finalize,
        !confirmed ==> match http_challenge {
            None => (r matches OrderStep::Fail(m) && m@ == "no HTTP challenge accessible"@),
            Some(c) => (r matches OrderStep::Prove { path, proof } && path@ == "acme-challenge/"@ + c.0@
                && proof == c.1),
        },
{
    if confirmed {
        return OrderStep::Finalize;
    }
    match http_challenge {
        Some((token, proof)) => OrderStep::Prove { path: challenge_path(token.as_str()), proof },
        None => OrderStep::Fail("no HTTP challenge accessible"),
    }
}

} // verus!
