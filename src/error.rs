//! Errors of counter groups, and how operating-system error codes map to them.
use vstd::prelude::*;

verus! {

/// Operation not permitted.
pub const EPERM: i32 = 1;
/// No such file or directory: the kernel does not know the generic event.
pub const ENOENT: i32 = 2;
/// Permission denied.
pub const EACCES: i32 = 13;
/// Device or resource busy: the counter is held elsewhere.
pub const EBUSY: i32 = 16;
/// No such device: the CPU has no such counter.
pub const ENODEV: i32 = 19;
/// Invalid argument: the event's configuration is not valid here. The
/// kernel gives the same code when a group no longer fits on the hardware
/// counters, and nothing in the reply tells the two apart; this library
/// reports it as an unsupported event.
pub const EINVAL: i32 = 22;
/// Too many open files.
pub const EMFILE: i32 = 24;
/// No space left: no counter slot is free.
pub const ENOSPC: i32 = 28;
/// Operation not supported.
pub const EOPNOTSUPP: i32 = 95;

/// Why an operation on a counter group failed.
#[derive(Clone, Copy, Debug, PartialEq, Eq, Structural)]
pub enum CounterError {
    /// A group needs at least one event.
    EmptyGroup,
    /// The caller may not observe hardware counters.
    PermissionDenied,
    /// The CPU or the kernel does not implement the requested event.
    UnsupportedEvent,
    /// No hardware counter slot, or no file descriptor, is available.
    ResourceExhausted,
    /// A system call failed, with the operating system's error code if any.
    OperationFailed(Option<i32>),
    /// A counter of the group had no value in a reading of the group.
    InternalInconsistency,
}

/// The error that a failed attachment reports, given the operating system's
/// error code.
pub open spec fn attach_error_of(code: Option<i32>) -> CounterError {
    match code {
        Some(c) => if c == EPERM || c == EACCES {
            CounterError::PermissionDenied
        } else if c == ENOENT || c == ENODEV || c == EINVAL || c == EOPNOTSUPP {
            CounterError::UnsupportedEvent
        } else if c == EBUSY || c == EMFILE || c == ENOSPC {
            CounterError::ResourceExhausted
        } else {
            CounterError::OperationFailed(code)
        },
        None => CounterError::OperationFailed(code),
    }
}

/// Whether `e` is the error of some failed attachment.
pub open spec fn is_attach_error(e: CounterError) -> bool {
    exists|code: Option<i32>| #[trigger] attach_error_of(code) == e
}

/// Classifies the error code of a failed attachment (or of opening the group).
pub fn classify_attach_error(code: Option<i32>) -> (r: CounterError)
    ensures
        r == attach_error_of(code),
{
    match code {
        Some(c) => {
            if c == EPERM || c == EACCES {
                CounterError::PermissionDenied
            } else if c == ENOENT || c == ENODEV || c == EINVAL || c == EOPNOTSUPP {
                CounterError::UnsupportedEvent
            } else if c == EBUSY || c == EMFILE || c == ENOSPC {
                CounterError::ResourceExhausted
            } else {
                CounterError::OperationFailed(code)
            }
        },
        None => CounterError::OperationFailed(code),
    }
}

} // verus!
