//! A sans-I/O supervisor for running a program under a pseudo-terminal.
//!
//! The library decides; the caller performs. Every system call the
//! supervisor needs is handed out as a [`Request`], and its outcome comes
//! back as a [`Reply`]. What the supervisor asks for, and in which order, is
//! specified by the state machine in [`model`] and proved of the executable
//! code in [`supervisor`].

pub mod attrs;
pub mod cli;
pub mod errno;
pub mod files;
pub mod invariants;
pub mod laws;
pub mod model;
pub mod options;
pub mod protocol;
pub mod runs;
pub mod status;
pub mod supervisor;

pub use attrs::{
    pty_attrs, raw_attrs, TermAttrs, Winsize, CS8, CSIZE, ECHO, ICANON, ICRNL, IGNCR, INLCR, ISIG,
    OPOST, PARENB, VEOF, VMIN, VTIME,
};
pub use cli::{execute, CliArgs};
pub use errno::Errno;
pub use files::{mkfifo_atomic, stdin_open_mode, stdout_open_mode, OpenMode, FIFO_MODE};
pub use model::Stage;
pub use options::{SpawnOptions, TtySpawn};
pub use protocol::{Fd, ReadSet, Reply, Request, READ_SIZE, SELECT_SECONDS};
pub use status::{exit_code, ChildStatus};
pub use supervisor::{spawn, Supervisor};
