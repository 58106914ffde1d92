//! Operating-system errors, as far as the supervisor tells them apart.

use vstd::prelude::*;

verus! {

/// An error reported by the operating system.
#[derive(Clone, Copy, Debug, PartialEq, Eq)]
pub enum Errno {
    /// `EINTR`: a signal interrupted the call.
    Interrupted,
    /// `EAGAIN`: nothing is available right now.
    WouldBlock,
    /// `EIO`: on Linux, what a closed terminal answers.
    Io,
    /// `EEXIST`: the path is already taken.
    Exists,
    /// `EINVAL`: also stands for a failure that carries no error code.
    Invalid,
    /// Any other error, by its raw code.
    Other(i32),
}

impl Errno {
    /// Whether the call may simply be made again later.
    pub open spec fn transient(self) -> bool {
        self is Interrupted || self is WouldBlock
    }

    /// Tells whether the error is `EINTR` or `EAGAIN`.
    pub fn is_transient(&self) -> (r: bool)
        ensures
            r == self.transient(),
    {
        match self {
            Errno::Interrupted | Errno::WouldBlock => true,
            _ => false,
        }
    }

    /// Tells whether the error is `EIO`.
    pub fn is_io(&self) -> (r: bool)
        ensures
            r == (*self is Io),
    {
        match self {
            Errno::Io => true,
            _ => false,
        }
    }
}

} // verus!
