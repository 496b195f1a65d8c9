//! What the integration routine hands back, and how its status codes are read.
//!
//! The routine returns an error estimate, a value, the number of integrand
//! evaluations and a status code. Codes 0 and 1 are successes; every other
//! code is an error, a known one where the routine documents it and
//! [`MVError::UnknownCode`] otherwise. No code is ever read as a success by
//! default.

use crate::text::{append_decimal, decimal};
use vstd::prelude::*;
use vstd::string::StringExecFns;

verus! {

/// How an integration ended that produced an estimate.
#[derive(Copy, Clone, Debug, Eq, PartialEq, Structural)]
pub enum MVInform {
    /// The estimate converged within the requested tolerance.
    Normal,
    /// The evaluation limit was reached first; value and error are the best
    /// estimate so far.
    PtLimitReached,
}

/// The outcome of a successful call.
#[derive(Debug, PartialEq)]
pub struct MVResult<T> {
    /// The estimated probability or critical value.
    pub value: T,
    /// The estimated absolute error of `value`.
    pub error: T,
    /// The number of integrand evaluations used.
    pub nevals: i32,
    /// Whether the estimate converged.
    pub state: MVInform,
}

/// What the integration routine returns, as it returns it.
#[derive(Debug, PartialEq)]
pub struct RawOutcome<T> {
    /// The estimated absolute error of `value`.
    pub error: T,
    /// The estimated probability or critical value.
    pub value: T,
    /// The number of integrand evaluations used.
    pub nevals: i32,
    /// The status code.
    pub inform: i32,
}

/// Why a call produced no estimate.
#[derive(Clone, Copy, Debug, PartialEq, Eq, Structural)]
pub enum MVError {
    /// The shapes of the arguments do not agree; the routine was not called.
    DimensionMismatch,
    /// The shapes agree, but a dimension is larger than the routine's integer
    /// type can express; the routine was not called.
    DimensionTooLarge,
    /// The routine refused the number of variables.
    InvalidN,
    /// The routine found the covariance matrix not positive semidefinite.
    NotPositiveSemidefinite,
    /// The routine refused the bounds.
    InvalidBounds,
    /// The routine returned a status code that it does not document.
    UnknownCode(i32),
}

impl<T: Copy> Clone for MVResult<T> {
    fn clone(&self) -> (r: Self)
        ensures
            r == *self,
    {
        *self
    }
}

impl<T: Copy> Copy for MVResult<T> {

}

impl<T: Copy> Clone for RawOutcome<T> {
    fn clone(&self) -> (r: Self)
        ensures
            r == *self,
    {
        *self
    }
}

impl<T: Copy> Copy for RawOutcome<T> {

}

impl MVError {
    /// The message of the error, as a sequence of characters.
    pub open spec fn spec_message(self) -> Seq<char> {
        match self {
            MVError::DimensionMismatch => "Dimensions of the arguments do not agree"@,
            MVError::DimensionTooLarge => "Dimension too large"@,
            MVError::InvalidN => "Invalid choice of N"@,
            MVError::NotPositiveSemidefinite => "Covariance matrix not positive semidefinite"@,
            MVError::InvalidBounds => "Invalid bounds given."@,
            MVError::UnknownCode(code) => "Unknown error code "@ + decimal(code as int),
        }
    }

    /// A message that says what went wrong; for an undocumented status code
    /// it ends in the code.
    pub fn message(&self) -> (text: String)
        ensures
            text@ == self.spec_message(),
    {
        match self {
            MVError::DimensionMismatch => String::from_str(
                "Dimensions of the arguments do not agree",
            ),
            MVError::DimensionTooLarge => String::from_str("Dimension too large"),
            MVError::InvalidN => String::from_str("Invalid choice of N"),
            MVError::NotPositiveSemidefinite => String::from_str(
                "Covariance matrix not positive semidefinite",
            ),
            MVError::InvalidBounds => String::from_str("Invalid bounds given."),
            MVError::UnknownCode(code) => append_decimal(
                String::from_str("Unknown error code "),
                *code,
            ),
        }
    }
}

/// The reading of a status code of the distribution routine.
pub open spec fn dist_status(code: i32) -> Result<MVInform, MVError> {
    if code == 0 {
        Ok(MVInform::Normal)
    } else if code == 1 {
        Ok(MVInform::PtLimitReached)
    } else if code == 2 {
        Err(MVError::InvalidN)
    } else if code == 3 {
        Err(MVError::NotPositiveSemidefinite)
    } else {
        Err(MVError::UnknownCode(code))
    }
}

/// The reading of a status code of the critical-value routine.
pub open spec fn crit_status(code: i32) -> Result<MVInform, MVError> {
    if code == 0 {
        Ok(MVInform::Normal)
    } else if code == 1 {
        Ok(MVInform::PtLimitReached)
    } else if code == 2 {
        Err(MVError::InvalidBounds)
    } else {
        Err(MVError::UnknownCode(code))
    }
}

/// The estimate of `raw` under the given reading of its status code.
pub open spec fn outcome<T>(raw: RawOutcome<T>, status: Result<MVInform, MVError>) -> Result<
    MVResult<T>,
    MVError,
> {
    match status {
        Ok(state) => Ok(
            MVResult { value: raw.value, error: raw.error, nevals: raw.nevals, state },
        ),
        Err(e) => Err(e),
    }
}

/// What a call of the distribution routine that returned `raw` amounts to.
pub open spec fn dist_outcome<T>(raw: RawOutcome<T>) -> Result<MVResult<T>, MVError> {
    outcome(raw, dist_status(raw.inform))
}

/// What a call of the critical-value routine that returned `raw` amounts to.
pub open spec fn crit_outcome<T>(raw: RawOutcome<T>) -> Result<MVResult<T>, MVError> {
    outcome(raw, crit_status(raw.inform))
}

/// Reads a status code of the distribution routine.
pub fn interpret_dist_status(code: i32) -> (status: Result<MVInform, MVError>)
    ensures
        status == dist_status(code),
{
    if code == 0 {
        Ok(MVInform::Normal)
    } else if code == 1 {
        Ok(MVInform::PtLimitReached)
    } else if code == 2 {
        Err(MVError::InvalidN)
    } else if code == 3 {
        Err(MVError::NotPositiveSemidefinite)
    } else {
        Err(MVError::UnknownCode(code))
    }
}

/// Reads a status code of the critical-value routine.
pub fn interpret_crit_status(code: i32) -> (status: Result<MVInform, MVError>)
    ensures
        status == crit_status(code),
{
    if code == 0 {
        Ok(MVInform::Normal)
    } else if code == 1 {
        Ok(MVInform::PtLimitReached)
    } else if code == 2 {
        Err(MVError::InvalidBounds)
    } else {
        Err(MVError::UnknownCode(code))
    }
}

/// Turns what the distribution routine returned into an estimate or an error.
pub fn interpret_dist<T>(raw: RawOutcome<T>) -> (r: Result<MVResult<T>, MVError>)
    ensures
        r == dist_outcome(raw),
{
    match interpret_dist_status(raw.inform) {
        Ok(state) => Ok(
            MVResult { value: raw.value, error: raw.error, nevals: raw.nevals, state },
        ),
        Err(e) => Err(e),
    }
}

/// Turns what the critical-value routine returned into an estimate or an error.
pub fn interpret_crit<T>(raw: RawOutcome<T>) -> (r: Result<MVResult<T>, MVError>)
    ensures
        r == crit_outcome(raw),
{
    match interpret_crit_status(raw.inform) {
        Ok(state) => Ok(
            MVResult { value: raw.value, error: raw.error, nevals: raw.nevals, state },
        ),
        Err(e) => Err(e),
    }
}

/// The two tables are complete: codes 0 and 1 are the only successes, each
/// documented failure code has its own error, and any other code is reported
/// with the code itself.
pub proof fn lemma_status_tables(code: i32)
    ensures
        dist_status(code) is Ok <==> code == 0 || code == 1,
        crit_status(code) is Ok <==> code == 0 || code == 1,
        code == 0 ==> dist_status(code) == Ok::<MVInform, MVError>(MVInform::Normal)
            && crit_status(code) == Ok::<MVInform, MVError>(MVInform::Normal),
        code == 1 ==> dist_status(code) == Ok::<MVInform, MVError>(MVInform::PtLimitReached)
            && crit_status(code) == Ok::<MVInform, MVError>(MVInform::PtLimitReached),
        code == 2 ==> dist_status(code) == Err::<MVInform, MVError>(MVError::InvalidN)
            && crit_status(code) == Err::<MVInform, MVError>(MVError::InvalidBounds),
        code == 3 ==> dist_status(code) == Err::<MVInform, MVError>(
            MVError::NotPositiveSemidefinite,
        ),
        !(0 <= code <= 3) ==> dist_status(code) == Err::<MVInform, MVError>(
            MVError::UnknownCode(code),
        ),
        !(0 <= code <= 2) ==> crit_status(code) == Err::<MVInform, MVError>(
            MVError::UnknownCode(code),
        ),
{
}

/// Reading an outcome keeps the routine's numbers on success and never
/// makes a success of a failure code.
pub proof fn lemma_outcome_keeps_estimate<T>(raw: RawOutcome<T>)
    ensures
        dist_outcome(raw) is Ok <==> raw.inform == 0 || raw.inform == 1,
        crit_outcome(raw) is Ok <==> raw.inform == 0 || raw.inform == 1,
        dist_outcome(raw) matches Ok(res) ==> res.value == raw.value && res.error == raw.error
            && res.nevals == raw.nevals,
        crit_outcome(raw) matches Ok(res) ==> res.value == raw.value && res.error == raw.error
            && res.nevals == raw.nevals,
        dist_outcome(raw) matches Ok(res) ==> crit_outcome(raw) == Ok::<MVResult<T>, MVError>(res),
{
}

} // verus!
