//! The raw result of a system call, and how it joins the flow of a function
//! that returns early on a failure.

use crate::error::Error;
use crate::result_code::OsResultCode;
use core::convert::Infallible;
use core::ops::ControlFlow;
use vstd::prelude::*;

verus! {

/// The code that stands for every failure that is no failed system call.
pub const GENERIC_FAILURE: OsResultCode = -1;

/// The raw result of a system call: a result code and nothing else.
///
/// It is no `Result`: on success there is nothing in it to take out. It only
/// carries a failure forward until [`LibCtruResult::branch`] turns it into an
/// [`Error`].
#[derive(Debug, Copy, Clone, PartialEq, PartialOrd, Eq, Ord, Structural)]
pub struct LibCtruResult(pub OsResultCode);

impl LibCtruResult {
    /// Where a raw result leads: on with nothing in hand, or out with the
    /// failure.
    pub open spec fn branching(self) -> ControlFlow<Result<Infallible, Error>, ()> {
        if self.0 < 0 {
            ControlFlow::Break(Err(Error::Os(self.0)))
        } else {
            ControlFlow::Continue(())
        }
    }

    /// The raw result that stands for what broke a computation off.
    pub open spec fn rebuilt(residual: Result<Infallible, Error>) -> LibCtruResult {
        match residual {
            Err(Error::Os(code)) => LibCtruResult(code),
            _ => LibCtruResult(GENERIC_FAILURE),
        }
    }

    /// The raw result of a computation that went through: zero.
    pub fn from_output(_output: ()) -> (raw: LibCtruResult)
        ensures
            raw == LibCtruResult(0),
    {
        LibCtruResult(0)
    }

    /// Goes on if the code is zero or positive, and breaks off with
    /// `Error::Os` of the code if it is negative.
    pub fn branch(self) -> (flow: ControlFlow<Result<Infallible, Error>, ()>)
        ensures
            flow == self.branching(),
    {
        if self.0 < 0 {
            ControlFlow::Break(Err(Error::Os(self.0)))
        } else {
            ControlFlow::Continue(())
        }
    }

    /// Turns what broke a computation off back into a raw result.
    ///
    /// A raw result can hold nothing but a code. `Error::Os` gives its code
    /// back; every other error is lost and becomes [`GENERIC_FAILURE`].
    pub fn from_residual(residual: Result<Infallible, Error>) -> (raw: LibCtruResult)
        ensures
            raw == LibCtruResult::rebuilt(residual),
    {
        match residual {
            Err(Error::Os(code)) => LibCtruResult(code),
            _ => LibCtruResult(GENERIC_FAILURE),
        }
    }
}

impl LibCtruResult {
    /// Whether the call succeeded: the code is zero or positive.
    #[verifier::when_used_as_spec(spec_is_success)]
    pub fn is_success(self) -> (success: bool)
        ensures
            success == self.spec_is_success(),
    {
        self.0 >= 0
    }

    /// Whether the call succeeded: the code is zero or positive.
    pub open spec fn spec_is_success(self) -> bool {
        self.0 >= 0
    }

    /// Whether the call failed: the code is negative.
    #[verifier::when_used_as_spec(spec_is_failure)]
    pub fn is_failure(self) -> (failure: bool)
        ensures
            failure == self.spec_is_failure(),
    {
        self.0 < 0
    }

    /// Whether the call failed: the code is negative.
    pub open spec fn spec_is_failure(self) -> bool {
        self.0 < 0
    }
}

/// The outcome of a system call that returned `code`.
pub open spec fn outcome_of(code: OsResultCode) -> Result<(), Error> {
    if code < 0 {
        Err(Error::Os(code))
    } else {
        Ok(())
    }
}

/// Turns the code that a system call returned into a `Result`, for use with
/// `?` at the call: `Err(Error::Os(code))` if the code is negative, `Ok(())`
/// if it is not.
pub fn try_os(code: OsResultCode) -> (outcome: Result<(), Error>)
    ensures
        outcome == outcome_of(code),
{
    match LibCtruResult(code).branch() {
        ControlFlow::Continue(output) => Ok(output),
        ControlFlow::Break(residual) => Err(residual.unwrap_err()),
    }
}

/// A code that is zero or positive goes on, whatever it is.
pub proof fn lemma_success_goes_on(code: OsResultCode)
    requires
        code >= 0,
    ensures
        LibCtruResult(code).branching() == ControlFlow::<Result<Infallible, Error>, ()>::Continue(
            (),
        ),
        outcome_of(code) == Ok::<(), Error>(()),
{
}

/// A negative code breaks off, and what it breaks off with is `Error::Os` of
/// that very code.
pub proof fn lemma_failure_breaks_off(code: OsResultCode)
    requires
        code < 0,
    ensures
        LibCtruResult(code).branching() == ControlFlow::<Result<Infallible, Error>, ()>::Break(
            Err(Error::Os(code)),
        ),
        outcome_of(code) == Err::<(), Error>(Error::Os(code)),
{
}

/// Turning an error back into a raw result keeps the code of an `Error::Os`
/// and nothing else: whatever the message of a C-library failure, and for
/// either of the two logical errors, the raw result holds `-1`.
pub proof fn lemma_rebuild_keeps_only_os(error: Error)
    ensures
        error matches Error::Os(code) ==> LibCtruResult::rebuilt(Err(error)) == LibCtruResult(code),
        !(error is Os) ==> LibCtruResult::rebuilt(Err(error)).0 == -1,
{
}

/// A failure that breaks off and is turned back is the raw result it was.
pub proof fn lemma_failure_round_trip(raw: LibCtruResult)
    requires
        raw.is_failure(),
    ensures
        raw.branching() matches ControlFlow::Break(residual) && LibCtruResult::rebuilt(residual)
            == raw,
{
}

} // verus!
