//! The computations behind the status-code and quotient routes, and the
//! errors the quotient route reports.
//!
//! The quotient route divides 100 by the clock reading modulo 3. An
//! unreadable clock or a zero divisor is a reported server error, never a
//! fault: the division is guarded, so the serving process cannot crash on
//! it.

use vstd::prelude::*;
use vstd::string::StringExecFns;

verus! {

/// The status of a plain success.
pub const STATUS_OK: u16 = 200;

/// The status a computation error is reported with.
pub const STATUS_INTERNAL_SERVER_ERROR: u16 = 500;

/// The fixed success status the status-code route answers with.
pub fn status_code_ok() -> (s: u16)
    ensures
        s == STATUS_OK,
{
    STATUS_OK
}

/// Why the quotient route could not produce a value.
#[derive(Clone, Copy, PartialEq, Eq, Structural, Debug)]
pub enum ComputeError {
    /// The system clock could not be read.
    BadClock,
    /// The clock reading modulo 3 was zero, so the division is undefined.
    DivByZero,
}

impl ComputeError {
    /// Every computation error is reported as a server error.
    pub fn status(&self) -> (s: u16)
        ensures
            s == STATUS_INTERNAL_SERVER_ERROR,
    {
        STATUS_INTERNAL_SERVER_ERROR
    }

    /// The human-readable message of this error.
    pub fn message(&self) -> (m: String)
        ensures
            m@ == compute_error_message(*self),
    {
        match self {
            ComputeError::BadClock => String::from_str("Bad Clock"),
            ComputeError::DivByZero => String::from_str("div by 0"),
        }
    }
}

/// The message each computation error carries.
pub open spec fn compute_error_message(e: ComputeError) -> Seq<char> {
    match e {
        ComputeError::BadClock => "Bad Clock"@,
        ComputeError::DivByZero => "div by 0"@,
    }
}

/// What the quotient route answers for a clock reading: the caller reads
/// the clock (`None` when it is unreadable) and this function decides the
/// whole outcome for every possible reading.
pub open spec fn quotient_outcome(clock: Option<u64>) -> Result<u64, ComputeError> {
    match clock {
        None => Err(ComputeError::BadClock),
        Some(s) => if s % 3 == 0 {
            Err(ComputeError::DivByZero)
        } else {
            Ok((100 as nat / (s % 3) as nat) as u64)
        },
    }
}

/// Computes the quotient route's result: 100 divided by the clock reading
/// modulo 3. Succeeds if and only if the clock was readable and the
/// divisor is not zero; a zero divisor (every reading divisible by 3) is
/// the reported division-by-zero error, an unreadable clock the bad-clock
/// error.
pub fn quotient_response(clock: Option<u64>) -> (r: Result<u64, ComputeError>)
    ensures
        r == quotient_outcome(clock),
{
    match clock {
        None => Err(ComputeError::BadClock),
        Some(s) => {
            let divisor = s % 3;
            if divisor == 0 {
                Err(ComputeError::DivByZero)
            } else {
                Ok(100 / divisor)
            }
        },
    }
}

} // verus!
