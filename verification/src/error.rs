//! Errors of the binding and their platform error numbers.

use nix::errno::Errno;
use vstd::prelude::*;

verus! {

/// Platform error number for "no such device".
pub const ENODEV: i32 = 19;

/// Platform error number for "invalid argument".
pub const EINVAL: i32 = 22;

/// `nix::errno::Errno`, the platform's error numbers as an enumeration. Its
/// variants are not visible to the verifier.
#[verifier::external_type_specification]
#[verifier::external_body]
pub struct ExErrno(Errno);

/// The `Errno` that nix assigns to a platform error number.
pub uninterp spec fn errno_of(code: i32) -> Errno;

/// `Errno::from_i32` is a constant function of the number it is given: the
/// variant whose value is that number, or `UnknownErrno` where there is none.
pub assume_specification[ Errno::from_i32 ](err: i32) -> (e: Errno)
    ensures
        e == errno_of(err),
;

/// `nix::errno::errno` reads the calling thread's `errno`. The value depends
/// on the calls made before, so nothing is promised of it.
pub assume_specification[ nix::errno::errno ]() -> (code: i32)
;

/// Why an operation on a disk handle failed.
#[derive(Clone, Copy, Debug, PartialEq, Eq, Structural)]
pub enum SmartError {
    /// A native call reported failure. `code` is the platform error number
    /// that was read right after the call returned.
    Device { code: i32 },
    /// The device does not offer the requested capability.
    Unsupported,
    /// A native text buffer did not hold valid text.
    Decode,
}

impl SmartError {
    /// The platform error number that stands for this error.
    pub open spec fn os_code(self) -> i32 {
        match self {
            SmartError::Device { code } => code,
            SmartError::Unsupported => ENODEV,
            SmartError::Decode => EINVAL,
        }
    }

    /// The platform error number that stands for this error.
    pub fn code(&self) -> (c: i32)
        ensures
            c == self.os_code(),
    {
        match self {
            SmartError::Device { code } => *code,
            SmartError::Unsupported => ENODEV,
            SmartError::Decode => EINVAL,
        }
    }

    /// This error as the `Errno` of its platform error number.
    pub fn errno(&self) -> (e: Errno)
        ensures
            e == errno_of(self.os_code()),
    {
        Errno::from_i32(self.code())
    }
}

} // verus!
