//! How a child ended, and the exit code that stands for it.

use vstd::prelude::*;

verus! {

/// What waiting for the child reported.
#[derive(Clone, Copy, Debug, PartialEq, Eq)]
pub enum ChildStatus {
    /// The child exited normally with this status.
    Exited(i32),
    /// The child was terminated by the signal with this number.
    Signaled(u8),
    /// Anything else (stopped, continued, still alive).
    Other,
}

/// The exit code for a child status: the status of a normal exit, 128 plus
/// the signal number for a signal, 1 otherwise.
pub open spec fn exit_status(status: ChildStatus) -> int {
    match status {
        ChildStatus::Exited(code) => code as int,
        ChildStatus::Signaled(signal) => 128 + signal,
        ChildStatus::Other => 1,
    }
}

/// Maps the child's termination to the supervisor's exit code.
pub fn exit_code(status: ChildStatus) -> (code: i32)
    ensures
        code == exit_status(status),
{
    match status {
        ChildStatus::Exited(code) => code,
        ChildStatus::Signaled(signal) => {
            let n: i32 = signal as i32;
            128 + n
        },
        ChildStatus::Other => 1,
    }
}

} // verus!
