//! A handler that fails at random with one of four errors, each answered with
//! its own HTTP status.
use rand::Rng;
use vstd::prelude::*;

verus! {

/// The four ways the handler can fail.
#[derive(Debug, Clone, Copy, PartialEq, Eq, Structural)]
pub enum CustomError {
    CustomOne,
    CustomTwo,
    CustomThree,
    CustomFour,
}

/// The error that a draw from `0..4` stands for; draws from 3 on give the
/// fourth.
pub open spec fn spec_from_draw(n: u32) -> CustomError {
    if n == 0 {
        CustomError::CustomOne
    } else if n == 1 {
        CustomError::CustomTwo
    } else if n == 2 {
        CustomError::CustomThree
    } else {
        CustomError::CustomFour
    }
}

/// The status each error is answered with: 403, 401, 500 and 400.
pub open spec fn spec_status(e: CustomError) -> u16 {
    match e {
        CustomError::CustomOne => 403,
        CustomError::CustomTwo => 401,
        CustomError::CustomThree => 500,
        CustomError::CustomFour => 400,
    }
}

/// The text each error shows.
pub open spec fn spec_message(e: CustomError) -> Seq<char> {
    match e {
        CustomError::CustomOne => "Custom Error 1"@,
        CustomError::CustomTwo => "Custom Error 2"@,
        CustomError::CustomThree => "Custom Error 3"@,
        CustomError::CustomFour => "Custom Error 4"@,
    }
}

impl CustomError {
    /// The error that a draw from `0..4` stands for.
    pub fn from_draw(n: u32) -> (r: CustomError)
        ensures
            r == spec_from_draw(n),
    {
        match n {
            0 => CustomError::CustomOne,
            1 => CustomError::CustomTwo,
            2 => CustomError::CustomThree,
            _ => CustomError::CustomFour,
        }
    }

    /// The HTTP status the error is answered with.
    pub fn status_code(&self) -> (r: u16)
        ensures
            r == spec_status(*self),
    {
        match self {
            CustomError::CustomOne => 403,
            CustomError::CustomTwo => 401,
            CustomError::CustomThree => 500,
            _ => 400,
        }
    }

    /// The text the error shows.
    pub fn message(&self) -> (r: &'static str)
        ensures
            r@ == spec_message(*self),
    {
        match self {
            CustomError::CustomOne => "Custom Error 1",
            CustomError::CustomTwo => "Custom Error 2",
            CustomError::CustomThree => "Custom Error 3",
            CustomError::CustomFour => "Custom Error 4",
        }
    }
}

/// Calls `Rng::gen_range(0..4)` on the thread's generator: a number drawn
/// uniformly from `0..4`. Only the range is stated; which number comes is
/// chance.
#[verifier::external_body]
fn draw_below_four() -> (r: u32)
    ensures
        r < 4,
{
    rand::thread_rng().gen_range(0..4u32)
}

/// Picks one of the four errors at random, each with the same chance: the
/// error `from_draw` gives for a draw from `0..4`. Which error comes is
/// chance, and every error can come, so nothing more is stated.
pub fn random_custom_error() -> (r: CustomError)
{
    let n = draw_below_four();
    CustomError::from_draw(n)
}

/// Calls `Rng::gen_ratio(2, 10)` on the thread's generator: `true` with
/// probability 2 in 10. Either value can come, so nothing is stated of it.
#[verifier::external_body]
fn two_in_ten() -> bool {
    rand::thread_rng().gen_ratio(2, 10)
}

/// What the handler's work comes to once both draws are made: nothing went
/// wrong when the lucky draw came, otherwise the drawn error.
pub fn outcome_of(lucky: bool, err: CustomError) -> (r: Result<(), CustomError>)
    ensures
        r == (if lucky { Ok::<(), CustomError>(()) } else { Err(err) }),
{
    if lucky {
        Ok(())
    } else {
        Err(err)
    }
}

/// What the handler's work comes to: `outcome_of` a lucky draw with a
/// chance of 2 in 10 and an error picked as `random_custom_error` picks it.
/// Which outcome comes is chance, so nothing more is stated.
pub fn do_something_random() -> (r: Result<(), CustomError>)
{
    let lucky = two_in_ten();
    let err = random_custom_error();
    outcome_of(lucky, err)
}

/// The handler's answer once fate is known: `Ok` when the lucky draw came,
/// otherwise the error.
pub fn handler_status(outcome: Result<(), CustomError>) -> (r: u16)
    ensures
        r == match outcome {
            Ok(()) => 200u16,
            Err(e) => spec_status(e),
        },
{
    match outcome {
        Ok(()) => 200,
        Err(e) => e.status_code(),
    }
}

/// Every draw from `0..4` stands for a different error, and different errors
/// are answered with different statuses.
pub proof fn lemma_draws_and_statuses_distinct(a: u32, b: u32)
    requires
        a < 4,
        b < 4,
        a != b,
    ensures
        spec_from_draw(a) != spec_from_draw(b),
        spec_status(spec_from_draw(a)) != spec_status(spec_from_draw(b)),
{
}

} // verus!
