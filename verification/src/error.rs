//! Classification of failed asynchronous operations.
//!
//! A failure is either the user closing a dialog without choosing a file —
//! not a fault, and never shown as an error — or a filesystem failure with
//! an operating-system-level cause.

use vstd::prelude::*;

verus! {

/// The operating-system-level cause of a failed read or write.
#[derive(Clone, Copy, Debug, PartialEq, Eq, Structural)]
pub enum IoErrorKind {
    NotFound,
    PermissionDenied,
    AlreadyExists,
    InvalidData,
    TimedOut,
    Interrupted,
    UnexpectedEof,
    OutOfMemory,
    Unsupported,
    Other,
}

/// Why an asynchronous operation failed: the user closed a dialog, or the
/// filesystem reported an error of a particular kind.
#[derive(Clone, Copy, Debug, PartialEq, Eq, Structural)]
pub enum Error {
    DialogClosed,
    IoFailed(IoErrorKind),
}

/// The status-bar message for a filesystem failure of the given kind.
pub open spec fn kind_message_spec(kind: IoErrorKind) -> Seq<char> {
    match kind {
        IoErrorKind::NotFound => "entity not found"@,
        IoErrorKind::PermissionDenied => "permission denied"@,
        IoErrorKind::AlreadyExists => "entity already exists"@,
        IoErrorKind::InvalidData => "invalid data"@,
        IoErrorKind::TimedOut => "timed out"@,
        IoErrorKind::Interrupted => "operation interrupted"@,
        IoErrorKind::UnexpectedEof => "unexpected end of file"@,
        IoErrorKind::OutOfMemory => "out of memory"@,
        IoErrorKind::Unsupported => "unsupported"@,
        IoErrorKind::Other => "other error"@,
    }
}

/// Returns the message displayed in the status area for a filesystem
/// failure of the given kind.
pub fn kind_message(kind: IoErrorKind) -> (msg: &'static str)
    ensures
        msg@ == kind_message_spec(kind),
{
    match kind {
        IoErrorKind::NotFound => "entity not found",
        IoErrorKind::PermissionDenied => "permission denied",
        IoErrorKind::AlreadyExists => "entity already exists",
        IoErrorKind::InvalidData => "invalid data",
        IoErrorKind::TimedOut => "timed out",
        IoErrorKind::Interrupted => "operation interrupted",
        IoErrorKind::UnexpectedEof => "unexpected end of file",
        IoErrorKind::OutOfMemory => "out of memory",
        IoErrorKind::Unsupported => "unsupported",
        IoErrorKind::Other => "other error",
    }
}

} // verus!
