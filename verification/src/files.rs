//! Decisions about the input FIFO and the log file.
//!
//! Nothing here touches the file system: the caller creates and opens the
//! files as these functions say.

use crate::errno::Errno;
use vstd::prelude::*;

verus! {

/// Permission bits of a FIFO created for input: read and write for the
/// owner, nothing for anyone else.
pub const FIFO_MODE: u32 = 0o600;

/// How a file is to be opened.
#[derive(Clone, Copy, Debug, PartialEq, Eq)]
pub struct OpenMode {
    pub read: bool,
    pub write: bool,
    pub append: bool,
    pub create: bool,
    pub truncate: bool,
    pub nonblocking: bool,
}

impl OpenMode {
    /// What the file holds after it was opened in this mode over `prior`
    /// and `written` was written to it: a truncating open discards the
    /// prior bytes, an appending one keeps them in front.
    pub open spec fn contents(self, prior: Seq<u8>, written: Seq<u8>) -> Seq<u8>
        recommends
            self.truncate || self.append,
    {
        if self.truncate {
            written
        } else {
            prior + written
        }
    }
}

/// What [`mkfifo_atomic`] makes of the outcome of creating the FIFO.
pub open spec fn fifo_outcome(made: Result<(), Errno>) -> Result<(), Errno> {
    match made {
        Ok(()) => Ok(()),
        Err(Errno::Exists) => Ok(()),
        Err(e) => Err(e),
    }
}

/// Judges the outcome of creating the input FIFO with [`FIFO_MODE`]: a path
/// that already exists is accepted, any other error is passed on.
pub fn mkfifo_atomic(made: Result<(), Errno>) -> (r: Result<(), Errno>)
    ensures
        r == fifo_outcome(made),
        r is Ok <==> (made is Ok || made == Err::<(), Errno>(Errno::Exists)),
{
    match made {
        Ok(()) => Ok(()),
        Err(Errno::Exists) => Ok(()),
        Err(e) => Err(e),
    }
}

/// What [`stdin_open_mode`] returns.
pub open spec fn input_mode() -> OpenMode {
    OpenMode {
        read: true,
        write: true,
        append: false,
        create: false,
        truncate: false,
        nonblocking: true,
    }
}

/// The mode in which the input path is opened: for reading without
/// blocking, and for writing too, so that the FIFO always has a writer.
pub fn stdin_open_mode() -> (mode: OpenMode)
    ensures
        mode == input_mode(),
{
    OpenMode {
        read: true,
        write: true,
        append: false,
        create: false,
        truncate: false,
        nonblocking: true,
    }
}

/// What [`stdout_open_mode`] returns.
pub open spec fn log_mode(truncate: bool) -> OpenMode {
    OpenMode {
        read: false,
        write: truncate,
        append: !truncate,
        create: true,
        truncate,
        nonblocking: false,
    }
}

/// The mode in which the log path is opened: created if missing, then
/// either truncated and written or appended to.
pub fn stdout_open_mode(truncate: bool) -> (mode: OpenMode)
    ensures
        mode == log_mode(truncate),
{
    OpenMode {
        read: false,
        write: truncate,
        append: !truncate,
        create: true,
        truncate,
        nonblocking: false,
    }
}

/// A log opened without truncation holds the prior bytes followed by the
/// new ones; one opened with truncation holds the new bytes only.
pub proof fn lemma_log_keeps_or_discards(truncate: bool, prior: Seq<u8>, written: Seq<u8>)
    ensures
        !truncate ==> log_mode(truncate).contents(prior, written) == prior + written,
        truncate ==> log_mode(truncate).contents(prior, written) == written,
{
}

} // verus!
