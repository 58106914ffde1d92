//! The supervisor as a state machine over mathematical values.
//!
//! A [`State`] has exactly one request pending, [`State::request`]; the
//! reply to it leads to the next state, [`State::step`]. Everything the
//! executable supervisor does is defined here, and the laws of the crate
//! are stated over runs of this machine.

use crate::attrs::{raw_mode, tuned, TermAttrs, Winsize};
use crate::errno::Errno;
use crate::options::Options;
use crate::protocol::{Fd, ReadSet, ReplyView, RequestView};
use crate::status::exit_status;
use vstd::prelude::*;

verus! {

/// Where the supervisor stands. Each stage is named after the request that
/// is pending in it.
#[derive(Clone, Copy, Debug, PartialEq, Eq)]
pub enum Stage {
    /// Reading the attributes of the controlling terminal.
    ProbeStdin,
    /// Reading the window size of the controlling terminal.
    ProbeStdinSize,
    /// Allocating the primary PTY.
    OpenPrimary { winsize: Option<Winsize> },
    /// Reading the attributes of the wrapper's standard error.
    ProbeStderr,
    /// Reading the window size of the wrapper's standard error.
    ProbeStderrSize { attrs: TermAttrs },
    /// Allocating the PTY for the child's standard error.
    OpenSecondary { winsize: Option<Winsize>, template: Option<TermAttrs> },
    /// Reading the attributes of the PTY for the child's standard error.
    ProbeStderrMaster,
    /// Installing attributes without `OPOST` on the PTY for the child's
    /// standard error.
    TuneStderrMaster { attrs: TermAttrs },
    /// Putting the controlling terminal into raw mode.
    EnterRaw { attrs: TermAttrs },
    /// Reading the attributes of the primary PTY.
    ProbeMaster,
    /// Asking whether standard input is a terminal.
    ProbeEcho { attrs: TermAttrs },
    /// Installing the adjusted attributes on the primary PTY.
    TuneMaster { attrs: TermAttrs },
    /// Forking.
    Fork,
    /// In the child: pointing `PAGER` at `cat`.
    ChildPager,
    /// In the child: closing the primary master.
    ChildCloseMaster,
    /// In the child: closing the master that carries standard error.
    ChildCloseStderrMaster,
    /// In the child: taking the primary slave as controlling terminal.
    ChildLogin,
    /// In the child: binding standard error to its own slave.
    ChildDup,
    /// In the child: executing the program.
    ChildExec,
    /// In the parent: closing the primary slave.
    ParentCloseSlave,
    /// In the parent: closing the slave that carries standard error.
    ParentCloseStderrSlave,
    /// Subscribing to window changes.
    Watch,
    /// At the top of the loop: asking whether the window changed.
    PollWinch,
    /// Reading the new window size.
    WinchSize,
    /// Passing the new window size to the primary PTY.
    WinchMaster { size: Winsize },
    /// Passing the new window size to the PTY of standard error.
    WinchStderr { size: Winsize },
    /// Looking up the foreground process group of the primary PTY.
    WinchGroup,
    /// Signalling the foreground process group.
    WinchSignal { group: i32 },
    /// Lowering the window-change flag.
    WinchClear,
    /// Waiting for input.
    Select,
    /// Reading from the wrapper's standard input.
    ReadStdin,
    /// After end of input: reading the attributes of the primary PTY.
    EofProbe,
    /// After end of input: typing the end-of-file character.
    EofSend { ch: u8 },
    /// Reading from the auxiliary input file.
    ReadInFile,
    /// Reading the child's standard error.
    ReadStderr,
    /// Reading the child's output.
    ReadMaster,
    /// Writing the chunk read from `source` to the log.
    Log { source: Fd },
    /// Flushing the log.
    Flush { source: Fd },
    /// Writing what is left of the chunk read from `source` to where it
    /// belongs.
    Send { source: Fd },
    /// Waiting for the child to end.
    Wait,
    /// After a failure in the parent: waiting for the child to end.
    Reap { error: Errno },
    /// Closing the primary master, once the child was waited for.
    CloseMaster { outcome: Result<i32, Errno> },
    /// Putting the controlling terminal back as it was found.
    Restore { attrs: TermAttrs, outcome: Result<i32, Errno> },
    /// Done.
    Finished { outcome: Result<i32, Errno> },
}

/// The state of a supervisor.
pub struct State {
    /// What to run and how.
    pub options: Options,
    /// The current stage.
    pub stage: Stage,
    /// The attributes the controlling terminal was found with, if standard
    /// input is a terminal.
    pub snapshot: Option<TermAttrs>,
    /// The attributes to put back on the way out, once raw mode was
    /// installed.
    pub guard: Option<TermAttrs>,
    /// Whether the child's standard error has a PTY of its own.
    pub split: bool,
    /// Whether standard input is still polled.
    pub read_stdin: bool,
    /// Whether the loop is to end.
    pub done: bool,
    /// The readable descriptors that are still to be served in this turn
    /// of the loop.
    pub ready: ReadSet,
    /// What is left to write of the chunk that is being forwarded.
    pub chunk: Seq<u8>,
}

/// The arguments handed to `execvp`: those of the command that hold no NUL
/// byte, in order.
pub open spec fn exec_args(command: Seq<Seq<u8>>) -> Seq<Seq<u8>> {
    command.filter(|arg: Seq<u8>| !arg.contains(0u8))
}

/// Where a chunk read from `source` is written to: the child's output to
/// the wrapper's standard output, its standard error to the wrapper's, and
/// any input to the primary PTY.
pub open spec fn dest(source: Fd) -> Fd {
    match source {
        Fd::Master => Fd::Stdout,
        Fd::StderrMaster => Fd::Stderr,
        _ => Fd::Master,
    }
}

/// Whether chunks read from `source` are output of the child, which the
/// log records.
pub open spec fn is_output(source: Fd) -> bool {
    source is Master || source is StderrMaster
}

impl State {
    /// The state a supervisor starts in.
    pub open spec fn initial(options: Options) -> State {
        State {
            options,
            stage: Stage::ProbeStdin,
            snapshot: None,
            guard: None,
            split: false,
            read_stdin: true,
            done: false,
            ready: ReadSet { stdin: false, in_file: false, stderr: false, master: false },
            chunk: Seq::empty(),
        }
    }

    /// Whether the wrapper itself is attached to a terminal.
    pub open spec fn tty(self) -> bool {
        self.snapshot is Some
    }

    /// This state at another stage.
    pub open spec fn at(self, stage: Stage) -> State {
        State { stage, ..self }
    }

    /// The way out: the terminal is restored first if raw mode was
    /// installed.
    pub open spec fn leave(self, outcome: Result<i32, Errno>) -> State {
        match self.guard {
            Some(attrs) => self.at(Stage::Restore { attrs, outcome }),
            None => self.at(Stage::Finished { outcome }),
        }
    }

    /// The way out after a call failed for good, where there is no child
    /// to wait for: before the fork and in the child.
    pub open spec fn fail(self, reply: ReplyView) -> State {
        self.leave(Err(reply.failure()))
    }

    /// The way out after a call failed for good in the parent: the child
    /// is waited for first.
    pub open spec fn abort(self, reply: ReplyView) -> State {
        self.at(Stage::Reap { error: reply.failure() })
    }

    /// The descriptors to wait on: always the primary PTY, and the others
    /// as far as they exist and are still polled.
    pub open spec fn read_set(self) -> ReadSet {
        ReadSet {
            stdin: self.read_stdin,
            in_file: self.options.stdin_file,
            stderr: self.split,
            master: true,
        }
    }

    /// The top of the loop.
    pub open spec fn loop_top(self) -> State {
        if self.done {
            self.at(Stage::Wait)
        } else {
            self.at(Stage::PollWinch)
        }
    }

    /// Goes on to wait for input; polling of standard input is armed again
    /// if the wrapper is attached to a terminal.
    pub open spec fn to_select(self) -> State {
        State { read_stdin: self.read_stdin || self.tty(), stage: Stage::Select, ..self }
    }

    /// Serves the primary PTY if it is readable; then the turn is over.
    pub open spec fn serve_master(self) -> State {
        if self.ready.master {
            self.at(Stage::ReadMaster)
        } else {
            self.loop_top()
        }
    }

    /// Serves the PTY of standard error if it is readable, then what comes
    /// after it.
    pub open spec fn serve_stderr(self) -> State {
        if self.ready.stderr {
            self.at(Stage::ReadStderr)
        } else {
            self.serve_master()
        }
    }

    /// Serves the input file if it is readable, then what comes after it.
    pub open spec fn serve_in_file(self) -> State {
        if self.ready.in_file {
            self.at(Stage::ReadInFile)
        } else {
            self.serve_stderr()
        }
    }

    /// Serves standard input if it is readable, then what comes after it.
    pub open spec fn serve_stdin(self) -> State {
        if self.ready.stdin {
            self.at(Stage::ReadStdin)
        } else {
            self.serve_in_file()
        }
    }

    /// Goes on after `source` was served. The order within a turn is
    /// standard input, input file, standard error, primary PTY.
    pub open spec fn after(self, source: Fd) -> State {
        match source {
            Fd::Stdin => self.serve_in_file(),
            Fd::InFile => self.serve_stderr(),
            Fd::StderrMaster => self.serve_master(),
            _ => self.loop_top(),
        }
    }

    /// Takes a chunk read from `source` for forwarding. Output of the child
    /// goes to the log first, if there is one.
    pub open spec fn accept(self, source: Fd, data: Seq<u8>) -> State {
        State {
            chunk: data,
            stage: if is_output(source) && self.options.stdout_file {
                Stage::Log { source }
            } else {
                Stage::Send { source }
            },
            ..self
        }
    }

    /// What follows the allocation of the primary PTY.
    pub open spec fn after_primary(self) -> State {
        if self.options.script_mode {
            self.at(Stage::ProbeStderr)
        } else if self.options.raw && self.snapshot is Some {
            self.at(Stage::EnterRaw { attrs: raw_mode(self.snapshot->0).echo_off() })
        } else {
            self.at(Stage::ProbeMaster)
        }
    }

    /// What follows the reading of the primary PTY's attributes.
    pub open spec fn after_probe_master(self, attrs: TermAttrs) -> State {
        if !self.options.echo {
            self.at(Stage::TuneMaster { attrs: tuned(attrs, self.options.script_mode, true) })
        } else if self.options.script_mode {
            self.at(Stage::ProbeEcho { attrs })
        } else {
            self.at(Stage::TuneMaster { attrs: tuned(attrs, false, false) })
        }
    }

    /// The first stage of the child.
    pub open spec fn child_start(self) -> State {
        if !self.options.pager || self.options.script_mode {
            self.at(Stage::ChildPager)
        } else {
            self.at(Stage::ChildCloseMaster)
        }
    }

    /// The last stage of the child, if there is a program to execute.
    pub open spec fn child_exec(self) -> State {
        if exec_args(self.options.command).len() > 0 {
            self.at(Stage::ChildExec)
        } else {
            self.leave(Err(Errno::Invalid))
        }
    }

    /// What the parent does once both slaves are closed.
    pub open spec fn parent_ready(self) -> State {
        if self.tty() {
            self.at(Stage::Watch)
        } else {
            self.loop_top()
        }
    }

    /// The request that is pending in this state.
    pub open spec fn request(self) -> RequestView {
        match self.stage {
            Stage::ProbeStdin => RequestView::GetAttrs(Fd::Stdin),
            Stage::ProbeStdinSize => RequestView::GetWinsize(Fd::Stdin),
            Stage::OpenPrimary { winsize } => RequestView::OpenPty {
                secondary: false,
                winsize,
                attrs: self.snapshot,
            },
            Stage::ProbeStderr => RequestView::GetAttrs(Fd::Stderr),
            Stage::ProbeStderrSize { attrs } => RequestView::GetWinsize(Fd::Stderr),
            Stage::OpenSecondary { winsize, template } => RequestView::OpenPty {
                secondary: true,
                winsize,
                attrs: template,
            },
            Stage::ProbeStderrMaster => RequestView::GetAttrs(Fd::StderrMaster),
            Stage::TuneStderrMaster { attrs } => RequestView::SetAttrs(Fd::StderrMaster, attrs),
            Stage::EnterRaw { attrs } => RequestView::SetAttrs(Fd::Stdin, attrs),
            Stage::ProbeMaster => RequestView::GetAttrs(Fd::Master),
            Stage::ProbeEcho { attrs } => RequestView::IsTty(Fd::Stdin),
            Stage::TuneMaster { attrs } => RequestView::SetAttrs(Fd::Master, attrs),
            Stage::Fork => RequestView::Fork,
            Stage::ChildPager => RequestView::SetPager,
            Stage::ChildCloseMaster => RequestView::Close(Fd::Master),
            Stage::ChildCloseStderrMaster => RequestView::Close(Fd::StderrMaster),
            Stage::ChildLogin => RequestView::LoginTty,
            Stage::ChildDup => RequestView::Dup(Fd::StderrSlave, Fd::Stderr),
            Stage::ChildExec => RequestView::Exec(exec_args(self.options.command)),
            Stage::ParentCloseSlave => RequestView::Close(Fd::Slave),
            Stage::ParentCloseStderrSlave => RequestView::Close(Fd::StderrSlave),
            Stage::Watch => RequestView::WatchWinch,
            Stage::PollWinch => RequestView::PollWinch,
            Stage::WinchSize => RequestView::GetWinsize(Fd::Stdin),
            Stage::WinchMaster { size } => RequestView::SetWinsize(Fd::Master, size),
            Stage::WinchStderr { size } => RequestView::SetWinsize(Fd::StderrMaster, size),
            Stage::WinchGroup => RequestView::ForegroundGroup(Fd::Master),
            Stage::WinchSignal { group } => RequestView::SignalGroup(group),
            Stage::WinchClear => RequestView::ClearWinch,
            Stage::Select => RequestView::Select(self.read_set()),
            Stage::ReadStdin => RequestView::Read(Fd::Stdin),
            Stage::EofProbe => RequestView::GetAttrs(Fd::Master),
            Stage::EofSend { ch } => RequestView::Write(Fd::Master, seq![ch]),
            Stage::ReadInFile => RequestView::Read(Fd::InFile),
            Stage::ReadStderr => RequestView::Read(Fd::StderrMaster),
            Stage::ReadMaster => RequestView::Read(Fd::Master),
            Stage::Log { source } => RequestView::LogWrite(self.chunk),
            Stage::Flush { source } => RequestView::LogFlush,
            Stage::Send { source } => RequestView::Write(dest(source), self.chunk),
            Stage::Wait => RequestView::Wait,
            Stage::Reap { error } => RequestView::Wait,
            Stage::CloseMaster { outcome } => RequestView::Close(Fd::Master),
            Stage::Restore { attrs, outcome } => RequestView::SetAttrs(Fd::Stdin, attrs),
            Stage::Finished { outcome } => RequestView::Finish(outcome),
        }
    }

    /// The state after the pending request was answered, while the PTYs
    /// are being set up.
    pub open spec fn step_setup(self, reply: ReplyView) -> State {
        match self.stage {
            Stage::ProbeStdin => match reply {
                ReplyView::Attrs(attrs) => State {
                    snapshot: Some(attrs),
                    stage: Stage::ProbeStdinSize,
                    ..self
                },
                _ => self.at(Stage::OpenPrimary { winsize: None }),
            },
            Stage::ProbeStdinSize => match reply {
                ReplyView::Size(size) => self.at(Stage::OpenPrimary { winsize: Some(size) }),
                _ => self.at(Stage::OpenPrimary { winsize: None }),
            },
            Stage::OpenPrimary { winsize } => match reply {
                ReplyView::Done => self.after_primary(),
                _ => self.fail(reply),
            },
            Stage::ProbeStderr => match reply {
                ReplyView::Attrs(attrs) => self.at(Stage::ProbeStderrSize { attrs }),
                _ => self.at(Stage::OpenSecondary { winsize: None, template: None }),
            },
            Stage::ProbeStderrSize { attrs } => match reply {
                ReplyView::Size(size) => self.at(
                    Stage::OpenSecondary { winsize: Some(size), template: Some(attrs) },
                ),
                _ => self.at(Stage::OpenSecondary { winsize: None, template: Some(attrs) }),
            },
            Stage::OpenSecondary { winsize, template } => match reply {
                ReplyView::Done => State {
                    split: true,
                    stage: Stage::ProbeStderrMaster,
                    ..self
                },
                _ => self.fail(reply),
            },
            Stage::ProbeStderrMaster => match reply {
                ReplyView::Attrs(attrs) => self.at(
                    Stage::TuneStderrMaster { attrs: attrs.opost_off() },
                ),
                _ => self.at(Stage::ProbeMaster),
            },
            Stage::TuneStderrMaster { attrs } => self.at(Stage::ProbeMaster),
            Stage::EnterRaw { attrs } => State {
                guard: self.snapshot,
                stage: Stage::ProbeMaster,
                ..self
            },
            Stage::ProbeMaster => match reply {
                ReplyView::Attrs(attrs) => self.after_probe_master(attrs),
                _ => self.at(Stage::Fork),
            },
            Stage::ProbeEcho { attrs } => match reply {
                ReplyView::Flag(tty) => self.at(
                    Stage::TuneMaster { attrs: tuned(attrs, true, !tty) },
                ),
                _ => self.at(Stage::TuneMaster { attrs: tuned(attrs, true, true) }),
            },
            Stage::TuneMaster { attrs } => self.at(Stage::Fork),
            Stage::Fork => match reply {
                ReplyView::Parent => self.at(Stage::ParentCloseSlave),
                ReplyView::Child => self.child_start(),
                _ => self.fail(reply),
            },
            _ => self,
        }
    }

    /// The state after the pending request was answered, in the child. Any
    /// failure is fatal, and so is the return of the final call.
    pub open spec fn step_child(self, reply: ReplyView) -> State {
        if !(reply is Done) || self.stage is ChildExec {
            self.fail(reply)
        } else {
            match self.stage {
                Stage::ChildPager => self.at(Stage::ChildCloseMaster),
                Stage::ChildCloseMaster => if self.split {
                    self.at(Stage::ChildCloseStderrMaster)
                } else {
                    self.at(Stage::ChildLogin)
                },
                Stage::ChildCloseStderrMaster => self.at(Stage::ChildLogin),
                Stage::ChildLogin => if self.split {
                    self.at(Stage::ChildDup)
                } else {
                    self.child_exec()
                },
                Stage::ChildDup => self.child_exec(),
                _ => self,
            }
        }
    }

    /// The state after the pending request was answered, where the parent
    /// gets ready and where it passes a window change on. No failure here
    /// is held against the run.
    pub open spec fn step_window(self, reply: ReplyView) -> State {
        match self.stage {
            Stage::ParentCloseSlave => if self.split {
                self.at(Stage::ParentCloseStderrSlave)
            } else {
                self.parent_ready()
            },
            Stage::ParentCloseStderrSlave => self.parent_ready(),
            Stage::Watch => self.loop_top(),
            Stage::PollWinch => match reply {
                ReplyView::Flag(true) => self.at(Stage::WinchSize),
                _ => self.to_select(),
            },
            Stage::WinchSize => match reply {
                ReplyView::Size(size) => self.at(Stage::WinchMaster { size }),
                _ => self.at(Stage::WinchClear),
            },
            Stage::WinchMaster { size } => if self.split {
                self.at(Stage::WinchStderr { size })
            } else {
                self.at(Stage::WinchGroup)
            },
            Stage::WinchStderr { size } => self.at(Stage::WinchGroup),
            Stage::WinchGroup => match reply {
                ReplyView::Group(group) => self.at(Stage::WinchSignal { group }),
                _ => self.at(Stage::WinchClear),
            },
            Stage::WinchSignal { group } => self.at(Stage::WinchClear),
            Stage::WinchClear => self.to_select(),
            _ => self,
        }
    }

    /// The state after the pending request was answered, where the parent
    /// waits for input and reads it. A failure for good does not end the
    /// run at once: the child is waited for first.
    pub open spec fn step_read(self, reply: ReplyView) -> State {
        match self.stage {
            Stage::Select => match reply {
                ReplyView::Ready(set) => State {
                    ready: set.meet(self.read_set()),
                    ..self
                }.serve_stdin(),
                ReplyView::Failed(e) => if e.transient() {
                    self.loop_top()
                } else {
                    self.abort(reply)
                },
                _ => self.abort(reply),
            },
            Stage::ReadStdin => match reply {
                ReplyView::Data(data) => if data.len() == 0 {
                    State { read_stdin: false, stage: Stage::EofProbe, ..self }
                } else {
                    self.accept(Fd::Stdin, data)
                },
                ReplyView::Failed(e) => if e.transient() {
                    self.serve_in_file()
                } else if e is Io {
                    State { done: true, ..self }.serve_in_file()
                } else {
                    self.abort(reply)
                },
                _ => self.abort(reply),
            },
            Stage::EofProbe => match reply {
                ReplyView::Attrs(attrs) => if attrs.canonical() {
                    self.at(Stage::EofSend { ch: attrs.eof() })
                } else {
                    self.serve_in_file()
                },
                _ => self.serve_in_file(),
            },
            Stage::EofSend { ch } => self.serve_in_file(),
            Stage::ReadInFile => match reply {
                ReplyView::Data(data) => if data.len() == 0 {
                    self.serve_stderr()
                } else {
                    self.accept(Fd::InFile, data)
                },
                ReplyView::Failed(e) => if e.transient() {
                    self.serve_stderr()
                } else {
                    self.abort(reply)
                },
                _ => self.abort(reply),
            },
            Stage::ReadStderr => match reply {
                ReplyView::Data(data) => if data.len() == 0 {
                    self.serve_master()
                } else {
                    self.accept(Fd::StderrMaster, data)
                },
                _ => self.serve_master(),
            },
            Stage::ReadMaster => match reply {
                ReplyView::Data(data) => if data.len() == 0 {
                    State { done: true, ..self }.loop_top()
                } else {
                    self.accept(Fd::Master, data)
                },
                ReplyView::Failed(e) => if e.transient() {
                    self.loop_top()
                } else if e is Io {
                    State { done: true, ..self }.loop_top()
                } else {
                    self.abort(reply)
                },
                _ => self.abort(reply),
            },
            _ => self,
        }
    }

    /// The state after the pending request was answered, where a chunk is
    /// on its way and where the run ends. The run ends past the wait for
    /// the child, whether it ends well or not; the primary master is closed
    /// once the child was waited for.
    pub open spec fn step_forward(self, reply: ReplyView) -> State {
        match self.stage {
            Stage::Log { source } => match reply {
                ReplyView::Done => if self.options.flush {
                    self.at(Stage::Flush { source })
                } else {
                    self.at(Stage::Send { source })
                },
                _ => self.abort(reply),
            },
            Stage::Flush { source } => self.at(Stage::Send { source }),
            Stage::Send { source } => match reply {
                ReplyView::Written(n) => if n >= self.chunk.len() {
                    State { chunk: Seq::empty(), ..self }.after(source)
                } else {
                    State { chunk: self.chunk.skip(n as int), ..self }
                },
                _ => self.abort(reply),
            },
            Stage::Wait => match reply {
                ReplyView::Status(status) => self.at(
                    Stage::CloseMaster { outcome: Ok(exit_status(status) as i32) },
                ),
                _ => self.at(Stage::CloseMaster { outcome: Err(reply.failure()) }),
            },
            Stage::Reap { error } => self.at(Stage::CloseMaster { outcome: Err(error) }),
            Stage::CloseMaster { outcome } => self.leave(outcome),
            Stage::Restore { attrs, outcome } => self.at(Stage::Finished { outcome }),
            _ => self,
        }
    }

    /// The state after the pending request was answered by `reply`.
    pub open spec fn step(self, reply: ReplyView) -> State {
        match self.stage {
            Stage::ProbeStdin
            | Stage::ProbeStdinSize
            | Stage::OpenPrimary { .. }
            | Stage::ProbeStderr
            | Stage::ProbeStderrSize { .. }
            | Stage::OpenSecondary { .. }
            | Stage::ProbeStderrMaster
            | Stage::TuneStderrMaster { .. }
            | Stage::EnterRaw { .. }
            | Stage::ProbeMaster
            | Stage::ProbeEcho { .. }
            | Stage::TuneMaster { .. }
            | Stage::Fork => self.step_setup(reply),
            Stage::ChildPager
            | Stage::ChildCloseMaster
            | Stage::ChildCloseStderrMaster
            | Stage::ChildLogin
            | Stage::ChildDup
            | Stage::ChildExec => self.step_child(reply),
            Stage::ParentCloseSlave
            | Stage::ParentCloseStderrSlave
            | Stage::Watch
            | Stage::PollWinch
            | Stage::WinchSize
            | Stage::WinchMaster { .. }
            | Stage::WinchStderr { .. }
            | Stage::WinchGroup
            | Stage::WinchSignal { .. }
            | Stage::WinchClear => self.step_window(reply),
            Stage::Select
            | Stage::ReadStdin
            | Stage::EofProbe
            | Stage::EofSend { .. }
            | Stage::ReadInFile
            | Stage::ReadStderr
            | Stage::ReadMaster => self.step_read(reply),
            Stage::Log { .. }
            | Stage::Flush { .. }
            | Stage::Send { .. }
            | Stage::Wait
            | Stage::Reap { .. }
            | Stage::CloseMaster { .. }
            | Stage::Restore { .. } => self.step_forward(reply),
            Stage::Finished { .. } => self,
        }
    }

    /// Whether nothing is left to do.
    pub open spec fn finished(self) -> bool {
        self.stage is Finished
    }
}

} // verus!
