//! The vocabulary between the supervisor and whoever performs its I/O.
//!
//! A [`Request`] names one system call; a [`Reply`] tells how it went.
//! Descriptors are named by role: the caller owns the real ones.

use crate::attrs::{TermAttrs, Winsize};
use crate::errno::Errno;
use crate::status::ChildStatus;
use vstd::prelude::*;

verus! {

/// A descriptor, by the role it plays.
#[derive(Clone, Copy, Debug, PartialEq, Eq, Structural)]
pub enum Fd {
    /// The wrapper's own standard input.
    Stdin,
    /// The wrapper's own standard output.
    Stdout,
    /// The wrapper's own standard error.
    Stderr,
    /// The master end of the primary PTY.
    Master,
    /// The slave end of the primary PTY.
    Slave,
    /// The master end of the PTY that carries the child's standard error.
    StderrMaster,
    /// The slave end of the PTY that carries the child's standard error.
    StderrSlave,
    /// The auxiliary input file.
    InFile,
}

/// A set of the descriptors the supervisor reads from.
#[derive(Clone, Copy, Debug, PartialEq, Eq, Structural)]
pub struct ReadSet {
    pub stdin: bool,
    pub in_file: bool,
    pub stderr: bool,
    pub master: bool,
}

impl ReadSet {
    /// The descriptors that are in both sets.
    pub open spec fn meet(self, other: ReadSet) -> ReadSet {
        ReadSet {
            stdin: self.stdin && other.stdin,
            in_file: self.in_file && other.in_file,
            stderr: self.stderr && other.stderr,
            master: self.master && other.master,
        }
    }

    /// Intersects two sets.
    pub fn intersect(self, other: ReadSet) -> (r: ReadSet)
        ensures
            r == self.meet(other),
    {
        ReadSet {
            stdin: self.stdin && other.stdin,
            in_file: self.in_file && other.in_file,
            stderr: self.stderr && other.stderr,
            master: self.master && other.master,
        }
    }
}

/// One thing the supervisor asks its caller to do.
#[derive(Debug, PartialEq, Eq)]
pub enum Request {
    /// Read the terminal attributes of a descriptor (`tcgetattr`).
    GetAttrs(Fd),
    /// Install terminal attributes on a descriptor, flushing pending input
    /// (`tcsetattr` with `TCSAFLUSH`).
    SetAttrs(Fd, TermAttrs),
    /// Read the window size of a descriptor (`TIOCGWINSZ`).
    GetWinsize(Fd),
    /// Set the window size of a descriptor (`TIOCSWINSZ`).
    SetWinsize(Fd, Winsize),
    /// Tell whether a descriptor is a terminal (`isatty`).
    IsTty(Fd),
    /// Allocate a PTY pair with the given window size and attributes; the
    /// secondary pair carries the child's standard error (`openpty`).
    OpenPty { secondary: bool, winsize: Option<Winsize>, attrs: Option<TermAttrs> },
    /// Fork the process.
    Fork,
    /// Set the environment variable `PAGER` to `cat`.
    SetPager,
    /// Close a descriptor.
    Close(Fd),
    /// Make the primary slave the controlling terminal of a new session
    /// and bind it to descriptors 0, 1 and 2 (`login_tty`).
    LoginTty,
    /// Duplicate the first descriptor over the second (`dup2`).
    Dup(Fd, Fd),
    /// Replace the process by the program named by the first argument
    /// (`execvp`).
    Exec(Vec<Vec<u8>>),
    /// Have `SIGWINCH` raise the window-change flag from now on.
    WatchWinch,
    /// Read the window-change flag.
    PollWinch,
    /// Lower the window-change flag.
    ClearWinch,
    /// Look up the foreground process group of a terminal (`tcgetpgrp`).
    ForegroundGroup(Fd),
    /// Send `SIGWINCH` to a process group (`killpg`).
    SignalGroup(i32),
    /// Wait up to one second for any of these descriptors to become
    /// readable (`select`).
    Select(ReadSet),
    /// Read once from a descriptor, up to [`READ_SIZE`] bytes.
    Read(Fd),
    /// Write once to a descriptor; the write may be short.
    Write(Fd, Vec<u8>),
    /// Write all of these bytes to the log file.
    LogWrite(Vec<u8>),
    /// Flush the log file.
    LogFlush,
    /// Wait for the child to end (`waitpid`).
    Wait,
    /// Nothing is left to do: this is the supervisor's result.
    Finish(Result<i32, Errno>),
}

/// The size of the buffer a [`Request::Read`] is served with.
pub const READ_SIZE: usize = 4096;

/// The number of seconds a [`Request::Select`] waits at most.
pub const SELECT_SECONDS: i64 = 1;

/// How a request went.
#[derive(Debug, PartialEq, Eq)]
pub enum Reply {
    /// The call succeeded and has nothing to tell.
    Done,
    /// The call failed with this error.
    Failed(Errno),
    /// The call failed and no error code is known.
    Fault,
    /// The attributes read.
    Attrs(TermAttrs),
    /// The window size read.
    Size(Winsize),
    /// The answer to a yes-or-no question.
    Flag(bool),
    /// The fork succeeded and this is the parent.
    Parent,
    /// The fork succeeded and this is the child.
    Child,
    /// The process group looked up.
    Group(i32),
    /// The descriptors that are readable; none if the wait timed out.
    Ready(ReadSet),
    /// The bytes read; none at the end of the stream.
    Data(Vec<u8>),
    /// The number of bytes the write took.
    Written(usize),
    /// How the child ended.
    Status(ChildStatus),
}

/// A [`Request`] with its bytes as sequences.
pub enum RequestView {
    GetAttrs(Fd),
    SetAttrs(Fd, TermAttrs),
    GetWinsize(Fd),
    SetWinsize(Fd, Winsize),
    IsTty(Fd),
    OpenPty { secondary: bool, winsize: Option<Winsize>, attrs: Option<TermAttrs> },
    Fork,
    SetPager,
    Close(Fd),
    LoginTty,
    Dup(Fd, Fd),
    Exec(Seq<Seq<u8>>),
    WatchWinch,
    PollWinch,
    ClearWinch,
    ForegroundGroup(Fd),
    SignalGroup(i32),
    Select(ReadSet),
    Read(Fd),
    Write(Fd, Seq<u8>),
    LogWrite(Seq<u8>),
    LogFlush,
    Wait,
    Finish(Result<i32, Errno>),
}

/// A [`Reply`] with its bytes as a sequence.
pub enum ReplyView {
    Done,
    Failed(Errno),
    Fault,
    Attrs(TermAttrs),
    Size(Winsize),
    Flag(bool),
    Parent,
    Child,
    Group(i32),
    Ready(ReadSet),
    Data(Seq<u8>),
    Written(usize),
    Status(ChildStatus),
}

impl View for Request {
    type V = RequestView;

    open spec fn view(&self) -> RequestView {
        match *self {
            Request::GetAttrs(fd) => RequestView::GetAttrs(fd),
            Request::SetAttrs(fd, attrs) => RequestView::SetAttrs(fd, attrs),
            Request::GetWinsize(fd) => RequestView::GetWinsize(fd),
            Request::SetWinsize(fd, size) => RequestView::SetWinsize(fd, size),
            Request::IsTty(fd) => RequestView::IsTty(fd),
            Request::OpenPty { secondary, winsize, attrs } => RequestView::OpenPty {
                secondary,
                winsize,
                attrs,
            },
            Request::Fork => RequestView::Fork,
            Request::SetPager => RequestView::SetPager,
            Request::Close(fd) => RequestView::Close(fd),
            Request::LoginTty => RequestView::LoginTty,
            Request::Dup(from, to) => RequestView::Dup(from, to),
            Request::Exec(args) => RequestView::Exec(args.deep_view()),
            Request::WatchWinch => RequestView::WatchWinch,
            Request::PollWinch => RequestView::PollWinch,
            Request::ClearWinch => RequestView::ClearWinch,
            Request::ForegroundGroup(fd) => RequestView::ForegroundGroup(fd),
            Request::SignalGroup(group) => RequestView::SignalGroup(group),
            Request::Select(set) => RequestView::Select(set),
            Request::Read(fd) => RequestView::Read(fd),
            Request::Write(fd, data) => RequestView::Write(fd, data@),
            Request::LogWrite(data) => RequestView::LogWrite(data@),
            Request::LogFlush => RequestView::LogFlush,
            Request::Wait => RequestView::Wait,
            Request::Finish(outcome) => RequestView::Finish(outcome),
        }
    }
}

impl View for Reply {
    type V = ReplyView;

    open spec fn view(&self) -> ReplyView {
        match *self {
            Reply::Done => ReplyView::Done,
            Reply::Failed(e) => ReplyView::Failed(e),
            Reply::Fault => ReplyView::Fault,
            Reply::Attrs(attrs) => ReplyView::Attrs(attrs),
            Reply::Size(size) => ReplyView::Size(size),
            Reply::Flag(flag) => ReplyView::Flag(flag),
            Reply::Parent => ReplyView::Parent,
            Reply::Child => ReplyView::Child,
            Reply::Group(group) => ReplyView::Group(group),
            Reply::Ready(set) => ReplyView::Ready(set),
            Reply::Data(data) => ReplyView::Data(data@),
            Reply::Written(n) => ReplyView::Written(n),
            Reply::Status(status) => ReplyView::Status(status),
        }
    }
}

impl ReplyView {
    /// The error a failed call is reported with: its own, or `EINVAL` where
    /// the reply carries none.
    pub open spec fn failure(self) -> Errno {
        match self {
            ReplyView::Failed(e) => e,
            _ => Errno::Invalid,
        }
    }
}

impl Reply {
    /// Returns the error to report for a call that did not succeed.
    pub fn error(&self) -> (e: Errno)
        ensures
            e == self@.failure(),
    {
        match self {
            Reply::Failed(e) => *e,
            _ => Errno::Invalid,
        }
    }
}

} // verus!
