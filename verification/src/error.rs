//! Canonical error taxonomy for the host layer.
//!
//! Ordinary failures carry an [`ErrorKind`]; two distinguished outcomes —
//! a guest-requested exit and an unrecoverable trap — are kept apart from
//! ordinary failures because they must propagate past the dispatcher to
//! the embedding instead of being encoded as a numeric error code.

use vstd::prelude::*;

verus! {

/// The kinds of ordinary, guest-recoverable failures a resource operation
/// may produce. Backends map platform-specific causes into this set before
/// they reach the dispatcher.
#[derive(Clone, Copy, PartialEq, Eq, Structural, Debug)]
pub enum ErrorKind {
    /// The handle is not live in the table.
    BadHandle,
    /// The operation is not valid for this capability or context.
    NotSupported,
    /// A malformed argument, such as an empty subscription set.
    InvalidArgument,
    /// A named child does not exist.
    NotFound,
    /// A named child already exists and exclusive creation was requested.
    AlreadyExists,
    /// The backend denied the operation.
    PermissionDenied,
    /// The backend has no room left.
    NoSpace,
    /// The operation was interrupted before completion.
    Interrupted,
    /// An opaque backend failure.
    Io,
    /// A numeric conversion fell out of range.
    Overflow,
    /// The handle space is exhausted.
    TooManyHandles,
}

/// A tagged outcome of a dispatched call.
///
/// `Kind` failures are caught at the dispatcher boundary and mapped to the
/// snapshot version's numeric code; `RequestedExit` and `Trap` propagate
/// past the dispatcher so the embedding can decide process-level behaviour.
#[derive(Clone, Copy, PartialEq, Eq, Structural, Debug)]
pub enum Error {
    /// An ordinary failure the guest could have avoided or can observe.
    Kind(ErrorKind),
    /// The guest asked to terminate with this exit code.
    RequestedExit(i32),
    /// An unrecoverable host-side violation; the guest instance must be
    /// aborted rather than handed an error code.
    Trap,
}

impl Error {
    /// Whether this outcome is an ordinary failure, encodable as a
    /// numeric error code, rather than an exit or trap signal.
    pub open spec fn is_ordinary(self) -> bool {
        self is Kind
    }
}

/// The numeric error code a kind maps to on the guest-visible wire.
/// Both snapshot versions share this numbering; what differs between them
/// is which ABI functions exist and how result structures are encoded.
pub open spec fn errno_of_kind(k: ErrorKind) -> u16 {
    match k {
        ErrorKind::PermissionDenied => 2,
        ErrorKind::BadHandle => 8,
        ErrorKind::AlreadyExists => 20,
        ErrorKind::Interrupted => 27,
        ErrorKind::InvalidArgument => 28,
        ErrorKind::Io => 29,
        ErrorKind::TooManyHandles => 33,
        ErrorKind::NotFound => 44,
        ErrorKind::NoSpace => 51,
        ErrorKind::NotSupported => 58,
        ErrorKind::Overflow => 61,
    }
}

/// Encode an ordinary failure kind as its guest-visible numeric code.
pub fn errno_of(k: ErrorKind) -> (r: u16)
    ensures
        r == errno_of_kind(k),
{
    match k {
        ErrorKind::PermissionDenied => 2,
        ErrorKind::BadHandle => 8,
        ErrorKind::AlreadyExists => 20,
        ErrorKind::Interrupted => 27,
        ErrorKind::InvalidArgument => 28,
        ErrorKind::Io => 29,
        ErrorKind::TooManyHandles => 33,
        ErrorKind::NotFound => 44,
        ErrorKind::NoSpace => 51,
        ErrorKind::NotSupported => 58,
        ErrorKind::Overflow => 61,
    }
}

/// What a dispatched call hands back when it does not succeed: the
/// snapshot's numeric code for an ordinary failure, or a signal that must
/// propagate past the dispatcher to the embedding untouched.
#[derive(Clone, Copy, PartialEq, Eq, Structural, Debug)]
pub enum DispatchError {
    /// An ordinary failure, encoded for the guest.
    Errno(u16),
    /// The guest asked to terminate with this code.
    Exit(i32),
    /// Unrecoverable: the guest instance must be aborted.
    Trap,
}

/// How an outcome leaves the dispatcher: ordinary failures become the
/// numeric code, exit and trap signals pass through.
pub open spec fn spec_encode_error(e: Error) -> DispatchError {
    match e {
        Error::Kind(k) => DispatchError::Errno(errno_of_kind(k)),
        Error::RequestedExit(code) => DispatchError::Exit(code),
        Error::Trap => DispatchError::Trap,
    }
}

/// Encode an outcome at the dispatcher boundary: an ordinary failure
/// becomes the guest-visible numeric code; an exit request or a trap
/// passes through for the embedding to act on.
pub fn encode_error(e: &Error) -> (r: DispatchError)
    ensures
        r == spec_encode_error(*e),
{
    match e {
        Error::Kind(k) => DispatchError::Errno(errno_of(*k)),
        Error::RequestedExit(code) => DispatchError::Exit(*code),
        Error::Trap => DispatchError::Trap,
    }
}

/// What the embedding should do with an outcome that reached the host
/// boundary: terminate the process with a code, or hand the failure back
/// to the caller.
#[derive(Clone, Copy, PartialEq, Eq, Structural, Debug)]
pub enum ExitDisposition {
    /// Terminate the process with this exit status.
    Terminate(i32),
    /// Not an exit or trap: the caller decides what to do.
    Propagate,
}

/// Relies on `libc::SIGABRT`, which is 6 on the unix targets this crate
/// builds for.
#[verifier::external_body]
fn sigabrt() -> (r: i32)
    ensures
        r == 6,
{
    libc::SIGABRT
}

/// The process-exit decision for an outcome that reached the host
/// boundary, on a platform where `windows` says whether Windows exit-code
/// conventions apply.
///
/// A guest-requested exit terminates with the requested code, except that
/// on Windows codes of 3 and above would be ambiguous with an abort, so
/// they collapse to 1. A trap terminates with the platform's conventional
/// abnormal-termination code: 128 plus `SIGABRT` on unix, 3 on Windows.
/// An ordinary failure is propagated for the caller to decide.
pub open spec fn spec_exit_disposition(e: Error, windows: bool) -> ExitDisposition {
    match e {
        Error::RequestedExit(code) => if windows && code >= 3 {
            ExitDisposition::Terminate(1)
        } else {
            ExitDisposition::Terminate(code)
        },
        Error::Trap => if windows {
            ExitDisposition::Terminate(3)
        } else {
            ExitDisposition::Terminate(134)
        },
        Error::Kind(_) => ExitDisposition::Propagate,
    }
}

/// Decide what the embedding should do with an outcome: exit the process
/// (guest-requested exit or trap) or hand it back (ordinary failure).
pub fn exit_disposition(e: &Error, windows: bool) -> (r: ExitDisposition)
    ensures
        r == spec_exit_disposition(*e, windows),
        r is Propagate <==> e.is_ordinary(),
{
    match e {
        Error::RequestedExit(code) => if windows && *code >= 3 {
            ExitDisposition::Terminate(1)
        } else {
            ExitDisposition::Terminate(*code)
        },
        Error::Trap => if windows {
            ExitDisposition::Terminate(3)
        } else {
            ExitDisposition::Terminate(128 + sigabrt())
        },
        Error::Kind(_) => ExitDisposition::Propagate,
    }
}

} // verus!
