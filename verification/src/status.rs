//! What the native layer reports: status codes, error numbers, booleans.

use crate::error::SmartError;
use vstd::prelude::*;

verus! {

/// The report of one native call: the code it returned and the calling
/// thread's error number as it stood right after the call.
///
/// The native layer keeps its error number in a thread-wide side channel that
/// the next call may overwrite, so it has to be read before any other call is
/// made on the thread. [`Status::capture`] does that.
#[derive(Clone, Copy, Debug, PartialEq, Eq, Structural)]
pub struct Status {
    /// The code that the native call returned: negative on failure.
    pub code: i32,
    /// The platform error number of a failed call. It is not read, and left
    /// at zero, where the call succeeded.
    pub errno: i32,
}

impl Status {
    /// Whether the native call reported failure.
    pub open spec fn failed(self) -> bool {
        self.code < 0
    }

    /// What the caller of an operation gets: `value` where the native call
    /// succeeded, else the device error with the error number of the call.
    pub open spec fn outcome<T>(self, value: T) -> Result<T, SmartError> {
        if self.code < 0 {
            Err(SmartError::Device { code: self.errno })
        } else {
            Ok(value)
        }
    }

    /// Takes the code that a native call has just returned and, where it
    /// reports failure, reads the thread's error number.
    ///
    /// Call it right after the native call, before anything else runs on the
    /// thread. The error number is whatever the native call left behind, so
    /// nothing is said of it but that a successful call leaves it unread.
    pub fn capture(code: i32) -> (s: Status)
        ensures
            s.code == code,
            code >= 0 ==> s.errno == 0,
    {
        if code < 0 {
            Status { code, errno: nix::errno::errno() }
        } else {
            Status { code, errno: 0 }
        }
    }

    /// Whether the native call reported failure.
    pub fn is_failure(&self) -> (b: bool)
        ensures
            b == self.failed(),
    {
        self.code < 0
    }

    /// Turns the report into the result of an operation that yields `value`
    /// on success.
    pub fn into_result<T>(self, value: T) -> (r: Result<T, SmartError>)
        ensures
            r == self.outcome(value),
    {
        if self.code < 0 {
            Err(SmartError::Device { code: self.errno })
        } else {
            Ok(value)
        }
    }
}

/// Decodes a boolean of the native layer, which reports it as an unsigned
/// integer: zero is `false`, every other value is `true`.
pub fn decode_bool(value: u32) -> (b: bool)
    ensures
        b == (value != 0),
{
    value != 0
}

/// A reply is never lost and never made up: an operation yields the value the
/// native call produced exactly when the call succeeded, and otherwise the
/// device error that carries the call's error number.
pub proof fn lemma_outcome_is_value_or_device_error<T>(status: Status, value: T)
    ensures
        status.code >= 0 <==> status.outcome(value) == Ok::<T, SmartError>(value),
        status.code < 0 <==> status.outcome(value) == Err::<T, SmartError>(
            SmartError::Device { code: status.errno },
        ),
{
}

} // verus!
