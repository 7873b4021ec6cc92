//! Error taxonomy for patch and hook operations.
//!
//! The native memory-copy primitive reports a numeric status word; a nonzero
//! status becomes an [`OsError`]. Failures that the crate detects itself are
//! classified by [`ErrorKind`]. [`Error`] unifies the two for callers.

use vstd::prelude::*;

verus! {

/// Failures detected by this crate, as opposed to those the operating
/// system reports.
#[derive(Clone, Copy, PartialEq, Eq, Structural, Debug)]
#[non_exhaustive]
pub enum ErrorKind {
    /// A string patch would exceed the room known to be available at the
    /// target.
    StringTooLong,
    /// A hook descriptor does not select exactly one target out of
    /// {replace address, symbol, offset}.
    MalformedDescriptor,
}

/// A failure reported by the operating system's memory-copy primitive:
/// the nonzero status word it returned.
#[derive(Clone, Copy, PartialEq, Eq, Structural, Debug)]
pub struct OsError {
    /// The nonzero status word.
    pub code: u32,
}

/// Any failure a patch or hook operation can surface.
#[derive(Clone, Copy, PartialEq, Eq, Structural, Debug)]
pub enum Error {
    /// The operating system refused a write.
    Os(OsError),
    /// This crate refused the operation.
    Skyline { kind: ErrorKind },
}

/// The raw status word returned by the native memory-copy primitive.
/// Zero means success; any other value is an error code.
#[derive(Clone, Copy, PartialEq, Eq, Structural, Debug)]
pub struct SwitchResult(pub u32);

impl SwitchResult {
    /// True when the status word reports success.
    pub open spec fn is_success(self) -> bool {
        self.0 == 0
    }

    /// Interpret the status word: zero is success, anything else is the
    /// error code of a failed write.
    pub fn ok(self) -> (r: Result<(), OsError>)
        ensures
            r == (if self.is_success() {
                Result::<(), OsError>::Ok(())
            } else {
                Result::<(), OsError>::Err(OsError { code: self.0 })
            }),
    {
        if self.0 != 0 {
            Err(OsError { code: self.0 })
        } else {
            Ok(())
        }
    }
}

impl OsError {
    /// Wrap this code as a general [`Error`].
    pub fn into_error(self) -> (r: Error)
        ensures
            r == Error::Os(self),
    {
        Error::Os(self)
    }
}

} // verus!
