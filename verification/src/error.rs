//! What the platform answers, and the errors of each stage of the lifecycle.

use crate::handle::Phase;
use vstd::prelude::*;

verus! {

/// The error of a platform call: the code that the platform reported, or
/// none where the failure came without one.
#[derive(Clone, Copy, Debug, PartialEq, Eq, Structural)]
pub struct OsError {
    pub code: Option<i32>,
}

/// What a platform call that answers with a status returned, and the error
/// code that was current when it did. The code means something only where
/// the value reports a failure.
#[derive(Clone, Copy, Debug, PartialEq, Eq, Structural)]
pub struct SysReturn {
    pub value: i32,
    pub errno: i32,
}

impl SysReturn {
    /// The error that a failed call is reported with.
    pub open spec fn error(self) -> OsError {
        OsError { code: Some(self.errno) }
    }

    #[verifier::when_used_as_spec(error)]
    pub fn os_error(self) -> (error: OsError)
        ensures
            error == self.error(),
    {
        OsError { code: Some(self.errno) }
    }
}

/// The platform would not hand out a socket.
#[derive(Clone, Copy, Debug, PartialEq, Eq, Structural)]
pub struct AllocationError {
    pub cause: OsError,
}

/// The platform would not set the address-reuse option.
#[derive(Clone, Copy, Debug, PartialEq, Eq, Structural)]
pub struct ConfigError {
    pub cause: OsError,
}

/// Why a handle could not be bound.
#[derive(Clone, Copy, Debug, PartialEq, Eq, Structural)]
pub enum BindError {
    /// The handle is past the point where it can be bound; the platform was
    /// not asked.
    WrongPhase(Phase),
    /// The address is of another family than the handle; the platform was not
    /// asked.
    FamilyMismatch,
    /// The platform refused: the address is in use, needs a privilege, or is
    /// not one of this machine.
    Os(OsError),
}

/// Why a handle has no local address to give.
#[derive(Clone, Copy, Debug, PartialEq, Eq, Structural)]
pub enum UnboundError {
    /// The handle was never bound.
    NotBound,
    /// The platform refused the query.
    Os(OsError),
    /// The platform named no internet address, or one that the bind cannot
    /// have produced.
    Unresolved,
}

/// Why a handle could not start to listen.
#[derive(Clone, Copy, Debug, PartialEq, Eq, Structural)]
pub enum ListenError {
    /// The handle is not freshly bound: never bound, listening already, or
    /// shut down. The platform was not asked.
    WrongPhase(Phase),
    /// Only a stream socket can listen; the platform was not asked.
    WrongSocketType,
    /// The platform refused.
    Os(OsError),
}

/// Why no further connection can be accepted. Fatal to the accept loop.
#[derive(Clone, Copy, Debug, PartialEq, Eq, Structural)]
pub enum AcceptError {
    /// The handle is not listening; the loop never started.
    NotListening(Phase),
    /// The platform failed to accept.
    Os(OsError),
}

/// Why the exchange on one connection did not complete. Never fatal to the
/// accept loop.
#[derive(Clone, Copy, Debug, PartialEq, Eq, Structural)]
pub enum IoError {
    /// The read failed.
    Read(OsError),
    /// A write failed.
    Write(OsError),
    /// A write took no byte although some were left to send.
    WriteZero,
}

} // verus!
