//! The result codec: from a raw return value and the error code read right
//! after the call to a structured result.

use vstd::prelude::*;
use crate::abi::Abi;

verus! {

/// A failure that the operating system reported, by its error code.
#[derive(Clone, Copy, Debug, PartialEq, Eq, Structural)]
pub struct OsError {
    /// The process-wide error code as it stood immediately after the call.
    pub code: i32,
}

impl OsError {
    /// Whether this is the failure of a blocking call that a signal
    /// interrupted before it transferred anything.
    pub open spec fn interrupted(&self, abi: &Abi) -> bool {
        self.code == abi.eintr
    }

    /// Runs the test of [`OsError::interrupted`].
    pub fn is_interrupted(&self, abi: &Abi) -> (yes: bool)
        ensures
            yes == self.interrupted(abi),
    {
        self.code == abi.eintr
    }
}

/// What a call that returns a C `int` reported: a negative return is a
/// failure with the error code, any other return is the value itself.
pub open spec fn checked(ret: i32, errno: i32) -> Result<i32, OsError> {
    if ret < 0 {
        Err(OsError { code: errno })
    } else {
        Ok(ret)
    }
}

/// What a call that returns a signed size reported: a negative return is a
/// failure with the error code, any other return is that many bytes.
pub open spec fn checked_size(ret: isize, errno: i32) -> Result<usize, OsError> {
    if ret < 0 {
        Err(OsError { code: errno })
    } else {
        Ok(ret as usize)
    }
}

/// Turns the raw return of a call that returns a C `int`, together with the
/// error code captured immediately after it, into a result.
pub fn cvt(ret: i32, errno: i32) -> (res: Result<i32, OsError>)
    ensures
        res == checked(ret, errno),
{
    if ret < 0 {
        Err(OsError { code: errno })
    } else {
        Ok(ret)
    }
}

/// Turns the raw return of a call that returns a signed size, together with
/// the error code captured immediately after it, into a result.
pub fn cvt_size(ret: isize, errno: i32) -> (res: Result<usize, OsError>)
    ensures
        res == checked_size(ret, errno),
        res matches Ok(n) ==> n == ret,
{
    if ret < 0 {
        Err(OsError { code: errno })
    } else {
        Ok(ret as usize)
    }
}

} // verus!
