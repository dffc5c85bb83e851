//! The error taxonomy shared by every handle of the crate.

use vstd::prelude::*;

verus! {

/// The errno values that the taxonomy gives a meaning of its own. They are
/// the generic Linux values (x86, ARM, RISC-V and most other architectures;
/// a few, such as MIPS, number some of them otherwise).
pub const EIO: i32 = 5;
pub const ENOENT: i32 = 2;
pub const EAGAIN: i32 = 11;
pub const ENOMEM: i32 = 12;
pub const EEXIST: i32 = 17;
pub const ENFILE: i32 = 23;
pub const EMFILE: i32 = 24;
pub const EINVAL: i32 = 22;
pub const ENOSPC: i32 = 28;
pub const EPIPE: i32 = 32;
pub const ENAMETOOLONG: i32 = 36;
pub const EMSGSIZE: i32 = 90;

/// What went wrong, independently of the platform's error codes.
#[derive(Clone, Copy, Debug, PartialEq, Eq, Structural)]
pub enum ErrorKind {
    /// A non-blocking operation found no data, or no room.
    WouldBlock,
    /// The named resource does not exist, or the handle was closed.
    NotFound,
    /// Exclusive creation found the resource already there.
    AlreadyExists,
    /// A message queue name that is not `/` followed by a name without `/` or NUL.
    InvalidName,
    /// A message longer than the queue's maximum message size.
    MessageTooLarge,
    /// A receive buffer shorter than the queue's maximum message size.
    BufferTooSmall,
    /// The other end of the pipe was closed.
    BrokenPipe,
    /// A descriptor or kernel-object limit was reached.
    ResourceExhausted,
    /// A transfer of the wrong size, or a kernel-reported I/O error.
    Io,
    /// Any other kernel failure, with its raw code.
    Os(i32),
}

/// The result type of every fallible operation of the crate.
pub type Result<T> = core::result::Result<T, ErrorKind>;

/// The kind that a kernel error code stands for.
pub open spec fn kind_of_errno(code: i32) -> ErrorKind {
    if code == EAGAIN {
        ErrorKind::WouldBlock
    } else if code == ENOENT {
        ErrorKind::NotFound
    } else if code == EEXIST {
        ErrorKind::AlreadyExists
    } else if code == ENAMETOOLONG {
        ErrorKind::InvalidName
    } else if code == EMSGSIZE {
        ErrorKind::MessageTooLarge
    } else if code == EPIPE {
        ErrorKind::BrokenPipe
    } else if code == EMFILE || code == ENFILE || code == ENOMEM || code == ENOSPC {
        ErrorKind::ResourceExhausted
    } else if code == EIO {
        ErrorKind::Io
    } else {
        ErrorKind::Os(code)
    }
}

impl ErrorKind {
    /// Classifies a kernel error code.
    pub fn from_errno(code: i32) -> (r: ErrorKind)
        ensures
            r == kind_of_errno(code),
    {
        if code == EAGAIN {
            ErrorKind::WouldBlock
        } else if code == ENOENT {
            ErrorKind::NotFound
        } else if code == EEXIST {
            ErrorKind::AlreadyExists
        } else if code == ENAMETOOLONG {
            ErrorKind::InvalidName
        } else if code == EMSGSIZE {
            ErrorKind::MessageTooLarge
        } else if code == EPIPE {
            ErrorKind::BrokenPipe
        } else if code == EMFILE || code == ENFILE || code == ENOMEM || code == ENOSPC {
            ErrorKind::ResourceExhausted
        } else if code == EIO {
            ErrorKind::Io
        } else {
            ErrorKind::Os(code)
        }
    }
}

/// An error kind that some kernel error code is classified as: every kind
/// but `BufferTooSmall` and the `Os` codes that have a kind of their own.
/// Where a contract ends in it, the kernel decided, and may fail in any way
/// it reports.
pub open spec fn kind_of_some_errno(e: ErrorKind) -> bool {
    exists|code: i32| e == #[trigger] kind_of_errno(code)
}

/// The result of a kernel call reported as `Ok(value)` or `Err(errno)`,
/// with the error code classified.
pub open spec fn lift_outcome<T>(outcome: core::result::Result<T, i32>) -> Result<T> {
    match outcome {
        Ok(v) => Ok(v),
        Err(code) => Err(kind_of_errno(code)),
    }
}

/// Classifies the error of a kernel call's outcome.
pub fn lift<T>(outcome: core::result::Result<T, i32>) -> (r: Result<T>)
    ensures
        r == lift_outcome(outcome),
{
    match outcome {
        Ok(v) => Ok(v),
        Err(code) => Err(ErrorKind::from_errno(code)),
    }
}

} // verus!
