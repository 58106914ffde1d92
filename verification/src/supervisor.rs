//! The executable supervisor.
//!
//! A [`Supervisor`] is driven in a loop: take its [`Supervisor::request`],
//! perform it, and hand the outcome to [`Supervisor::advance`], until the
//! request is [`Request::Finish`]. Both are proved to follow the state
//! machine of [`crate::model`].

use crate::attrs::{pty_attrs, raw_attrs, TermAttrs};
use crate::errno::Errno;
use crate::model::{dest, exec_args, is_output, Stage, State};
use crate::options::SpawnOptions;
use crate::protocol::{Fd, ReadSet, Reply, Request};
use crate::status::exit_code;
use vstd::prelude::*;
use vstd::slice::slice_to_vec;

verus! {

/// Supervises one run of a program under a pseudo-terminal.
pub struct Supervisor {
    options: SpawnOptions,
    stage: Stage,
    snapshot: Option<TermAttrs>,
    guard: Option<TermAttrs>,
    split: bool,
    read_stdin: bool,
    done: bool,
    ready: ReadSet,
    chunk: Vec<u8>,
}

impl View for Supervisor {
    type V = State;

    closed spec fn view(&self) -> State {
        State {
            options: self.options@,
            stage: self.stage,
            snapshot: self.snapshot,
            guard: self.guard,
            split: self.split,
            read_stdin: self.read_stdin,
            done: self.done,
            ready: self.ready,
            chunk: self.chunk@,
        }
    }
}

/// Creates the supervisor for the given options. Nothing has happened yet:
/// its first request is pending.
pub fn spawn(options: SpawnOptions) -> (r: Supervisor)
    ensures
        r@ == State::initial(options@),
{
    Supervisor {
        options,
        stage: Stage::ProbeStdin,
        snapshot: None,
        guard: None,
        split: false,
        read_stdin: true,
        done: false,
        ready: ReadSet { stdin: false, in_file: false, stderr: false, master: false },
        chunk: Vec::new(),
    }
}

/// Copies a byte string.
fn copy_bytes(bytes: &Vec<u8>) -> (r: Vec<u8>)
    ensures
        r@ == bytes@,
{
    slice_to_vec(bytes.as_slice())
}

/// Copies a byte string without its first `n` bytes.
fn copy_tail(bytes: &Vec<u8>, n: usize) -> (r: Vec<u8>)
    requires
        n <= bytes.len(),
    ensures
        r@ == bytes@.skip(n as int),
{
    let mut r: Vec<u8> = Vec::new();
    let mut i: usize = n;
    while i < bytes.len()
        invariant
            n <= i <= bytes.len(),
            r@ == bytes@.subrange(n as int, i as int),
        decreases bytes.len() - i,
    {
        r.push(bytes[i]);
        i += 1;
    }
    r
}

/// Tells whether a byte string holds a NUL byte.
fn has_nul(bytes: &Vec<u8>) -> (r: bool)
    ensures
        r == bytes@.contains(0u8),
{
    let mut i: usize = 0;
    while i < bytes.len()
        invariant
            i <= bytes.len(),
            forall|j: int| 0 <= j < i ==> bytes@[j] != 0u8,
        decreases bytes.len() - i,
    {
        if bytes[i] == 0 {
            return true;
        }
        i += 1;
    }
    false
}

/// Collects the arguments that can be handed to `execvp`.
fn collect_exec_args(command: &Vec<Vec<u8>>) -> (r: Vec<Vec<u8>>)
    ensures
        r.deep_view() == exec_args(command.deep_view()),
{
    let ghost all = command.deep_view();
    let ghost keep = |arg: Seq<u8>| !arg.contains(0u8);
    let mut r: Vec<Vec<u8>> = Vec::new();
    let mut i: usize = 0;
    proof {
        reveal(Seq::filter);
        assert(r.deep_view() =~= all.take(0).filter(keep));
    }
    while i < command.len()
        invariant
            i <= command.len(),
            all == command.deep_view(),
            keep == |arg: Seq<u8>| !arg.contains(0u8),
            r.deep_view() == all.take(i as int).filter(keep),
        decreases command.len() - i,
    {
        let ghost before = r.deep_view();
        let arg = &command[i];
        proof {
            reveal(Seq::filter);
            assert(all.take(i + 1).drop_last() =~= all.take(i as int));
            assert(all.take(i + 1).last() == all[i as int]);
            assert(all[i as int] =~= arg@);
        }
        if !has_nul(arg) {
            let copy = copy_bytes(arg);
            r.push(copy);
            assert(r.deep_view() =~= before.push(arg@));
        }
        i += 1;
    }
    proof {
        assert(all.take(i as int) =~= all);
    }
    r
}

impl Supervisor {
    /// Tells whether the run is over.
    pub fn is_finished(&self) -> (r: bool)
        ensures
            r == self@.finished(),
    {
        match self.stage {
            Stage::Finished { .. } => true,
            _ => false,
        }
    }

    /// Returns the options the supervisor was created with.
    pub fn options(&self) -> (r: &SpawnOptions)
        ensures
            r@ == self@.options,
    {
        &self.options
    }

    /// Returns the stage the supervisor is at.
    pub fn stage(&self) -> (r: Stage)
        ensures
            r == self@.stage,
    {
        self.stage
    }

    /// Returns the request that is pending. Asking changes nothing: until
    /// the next [`Supervisor::advance`] the request stays the same.
    pub fn request(&self) -> (r: Request)
        ensures
            r@ == self@.request(),
    {
        match self.stage {
            Stage::ProbeStdin => Request::GetAttrs(Fd::Stdin),
            Stage::ProbeStdinSize => Request::GetWinsize(Fd::Stdin),
            Stage::OpenPrimary { winsize } => Request::OpenPty {
                secondary: false,
                winsize,
                attrs: self.snapshot,
            },
            Stage::ProbeStderr => Request::GetAttrs(Fd::Stderr),
            Stage::ProbeStderrSize { .. } => Request::GetWinsize(Fd::Stderr),
            Stage::OpenSecondary { winsize, template } => Request::OpenPty {
                secondary: true,
                winsize,
                attrs: template,
            },
            Stage::ProbeStderrMaster => Request::GetAttrs(Fd::StderrMaster),
            Stage::TuneStderrMaster { attrs } => Request::SetAttrs(Fd::StderrMaster, attrs),
            Stage::EnterRaw { attrs } => Request::SetAttrs(Fd::Stdin, attrs),
            Stage::ProbeMaster => Request::GetAttrs(Fd::Master),
            Stage::ProbeEcho { .. } => Request::IsTty(Fd::Stdin),
            Stage::TuneMaster { attrs } => Request::SetAttrs(Fd::Master, attrs),
            Stage::Fork => Request::Fork,
            Stage::ChildPager => Request::SetPager,
            Stage::ChildCloseMaster => Request::Close(Fd::Master),
            Stage::ChildCloseStderrMaster => Request::Close(Fd::StderrMaster),
            Stage::ChildLogin => Request::LoginTty,
            Stage::ChildDup => Request::Dup(Fd::StderrSlave, Fd::Stderr),
            Stage::ChildExec => Request::Exec(collect_exec_args(&self.options.command)),
            Stage::ParentCloseSlave => Request::Close(Fd::Slave),
            Stage::ParentCloseStderrSlave => Request::Close(Fd::StderrSlave),
            Stage::Watch => Request::WatchWinch,
            Stage::PollWinch => Request::PollWinch,
            Stage::WinchSize => Request::GetWinsize(Fd::Stdin),
            Stage::WinchMaster { size } => Request::SetWinsize(Fd::Master, size),
            Stage::WinchStderr { size } => Request::SetWinsize(Fd::StderrMaster, size),
            Stage::WinchGroup => Request::ForegroundGroup(Fd::Master),
            Stage::WinchSignal { group } => Request::SignalGroup(group),
            Stage::WinchClear => Request::ClearWinch,
            Stage::Select => Request::Select(self.read_set()),
            Stage::ReadStdin => Request::Read(Fd::Stdin),
            Stage::EofProbe => Request::GetAttrs(Fd::Master),
            Stage::EofSend { ch } => {
                let mut data: Vec<u8> = Vec::new();
                data.push(ch);
                assert(data@ =~= seq![ch]);
                Request::Write(Fd::Master, data)
            },
            Stage::ReadInFile => Request::Read(Fd::InFile),
            Stage::ReadStderr => Request::Read(Fd::StderrMaster),
            Stage::ReadMaster => Request::Read(Fd::Master),
            Stage::Log { .. } => Request::LogWrite(copy_bytes(&self.chunk)),
            Stage::Flush { .. } => Request::LogFlush,
            Stage::Send { source } => Request::Write(
                destination(source),
                copy_bytes(&self.chunk),
            ),
            Stage::Wait => Request::Wait,
            Stage::Reap { .. } => Request::Wait,
            Stage::CloseMaster { .. } => Request::Close(Fd::Master),
            Stage::Restore { attrs, .. } => Request::SetAttrs(Fd::Stdin, attrs),
            Stage::Finished { outcome } => Request::Finish(outcome),
        }
    }

    /// Takes the outcome of the pending request and moves on to the next
    /// one. Once the run is over, further replies change nothing.
    pub fn advance(&mut self, reply: Reply)
        ensures
            final(self)@ == old(self)@.step(reply@),
    {
        match self.stage {
            Stage::ProbeStdin
            | Stage::ProbeStdinSize
            | Stage::OpenPrimary { .. }
            | Stage::ProbeStderr
            | Stage::ProbeStderrSize { .. }
            | Stage::OpenSecondary { .. }
            | Stage::ProbeStderrMaster
            | Stage::TuneStderrMaster { .. }
            | Stage::EnterRaw { .. }
            | Stage::ProbeMaster
            | Stage::ProbeEcho { .. }
            | Stage::TuneMaster { .. }
            | Stage::Fork => self.advance_setup(reply),
            Stage::ChildPager
            | Stage::ChildCloseMaster
            | Stage::ChildCloseStderrMaster
            | Stage::ChildLogin
            | Stage::ChildDup
            | Stage::ChildExec => self.advance_child(reply),
            Stage::ParentCloseSlave
            | Stage::ParentCloseStderrSlave
            | Stage::Watch
            | Stage::PollWinch
            | Stage::WinchSize
            | Stage::WinchMaster { .. }
            | Stage::WinchStderr { .. }
            | Stage::WinchGroup
            | Stage::WinchSignal { .. }
            | Stage::WinchClear => self.advance_window(reply),
            Stage::Select
            | Stage::ReadStdin
            | Stage::EofProbe
            | Stage::EofSend { .. }
            | Stage::ReadInFile
            | Stage::ReadStderr
            | Stage::ReadMaster => self.advance_read(reply),
            Stage::Log { .. }
            | Stage::Flush { .. }
            | Stage::Send { .. }
            | Stage::Wait
            | Stage::Reap { .. }
            | Stage::CloseMaster { .. }
            | Stage::Restore { .. } => self.advance_forward(reply),
            Stage::Finished { .. } => {},
        }
    }

    fn read_set(&self) -> (r: ReadSet)
        ensures
            r == self@.read_set(),
    {
        ReadSet {
            stdin: self.read_stdin,
            in_file: self.options.stdin_file,
            stderr: self.split,
            master: true,
        }
    }

    fn leave(&mut self, outcome: Result<i32, Errno>)
        ensures
            final(self)@ == old(self)@.leave(outcome),
    {
        match self.guard {
            Some(attrs) => {
                self.stage = Stage::Restore { attrs, outcome };
            },
            None => {
                self.stage = Stage::Finished { outcome };
            },
        }
    }

    fn fail(&mut self, reply: &Reply)
        ensures
            final(self)@ == old(self)@.fail(reply@),
    {
        self.leave(Err(reply.error()))
    }

    fn abort(&mut self, reply: &Reply)
        ensures
            final(self)@ == old(self)@.abort(reply@),
    {
        self.stage = Stage::Reap { error: reply.error() };
    }

    fn loop_top(&mut self)
        ensures
            final(self)@ == old(self)@.loop_top(),
    {
        if self.done {
            self.stage = Stage::Wait;
        } else {
            self.stage = Stage::PollWinch;
        }
    }

    fn to_select(&mut self)
        ensures
            final(self)@ == old(self)@.to_select(),
    {
        if self.snapshot.is_some() {
            self.read_stdin = true;
        }
        self.stage = Stage::Select;
    }

    fn serve_master(&mut self)
        ensures
            final(self)@ == old(self)@.serve_master(),
    {
        if self.ready.master {
            self.stage = Stage::ReadMaster;
        } else {
            self.loop_top();
        }
    }

    fn serve_stderr(&mut self)
        ensures
            final(self)@ == old(self)@.serve_stderr(),
    {
        if self.ready.stderr {
            self.stage = Stage::ReadStderr;
        } else {
            self.serve_master();
        }
    }

    fn serve_in_file(&mut self)
        ensures
            final(self)@ == old(self)@.serve_in_file(),
    {
        if self.ready.in_file {
            self.stage = Stage::ReadInFile;
        } else {
            self.serve_stderr();
        }
    }

    fn serve_stdin(&mut self)
        ensures
            final(self)@ == old(self)@.serve_stdin(),
    {
        if self.ready.stdin {
            self.stage = Stage::ReadStdin;
        } else {
            self.serve_in_file();
        }
    }

    fn after(&mut self, source: Fd)
        ensures
            final(self)@ == old(self)@.after(source),
    {
        match source {
            Fd::Stdin => self.serve_in_file(),
            Fd::InFile => self.serve_stderr(),
            Fd::StderrMaster => self.serve_master(),
            _ => self.loop_top(),
        }
    }

    fn accept(&mut self, source: Fd, data: Vec<u8>)
        ensures
            final(self)@ == old(self)@.accept(source, data@),
    {
        self.chunk = data;
        if records(source) && self.options.stdout_file {
            self.stage = Stage::Log { source };
        } else {
            self.stage = Stage::Send { source };
        }
    }

    fn after_primary(&mut self)
        ensures
            final(self)@ == old(self)@.after_primary(),
    {
        if self.options.script_mode {
            self.stage = Stage::ProbeStderr;
        } else {
            match self.snapshot {
                Some(snapshot) if self.options.raw => {
                    self.stage = Stage::EnterRaw { attrs: raw_attrs(&snapshot) };
                },
                _ => {
                    self.stage = Stage::ProbeMaster;
                },
            }
        }
    }

    fn after_probe_master(&mut self, attrs: TermAttrs)
        ensures
            final(self)@ == old(self)@.after_probe_master(attrs),
    {
        if !self.options.echo {
            self.stage = Stage::TuneMaster {
                attrs: pty_attrs(attrs, self.options.script_mode, true),
            };
        } else if self.options.script_mode {
            self.stage = Stage::ProbeEcho { attrs };
        } else {
            self.stage = Stage::TuneMaster { attrs: pty_attrs(attrs, false, false) };
        }
    }

    fn child_start(&mut self)
        ensures
            final(self)@ == old(self)@.child_start(),
    {
        if !self.options.pager || self.options.script_mode {
            self.stage = Stage::ChildPager;
        } else {
            self.stage = Stage::ChildCloseMaster;
        }
    }

    fn child_exec(&mut self)
        ensures
            final(self)@ == old(self)@.child_exec(),
    {
        let args = collect_exec_args(&self.options.command);
        if args.len() > 0 {
            self.stage = Stage::ChildExec;
        } else {
            self.leave(Err(Errno::Invalid));
        }
    }

    fn parent_ready(&mut self)
        ensures
            final(self)@ == old(self)@.parent_ready(),
    {
        if self.snapshot.is_some() {
            self.stage = Stage::Watch;
        } else {
            self.loop_top();
        }
    }

    fn advance_setup(&mut self, reply: Reply)
        ensures
            final(self)@ == old(self)@.step_setup(reply@),
    {
        match self.stage {
            Stage::ProbeStdin => match reply {
                Reply::Attrs(attrs) => {
                    self.snapshot = Some(attrs);
                    self.stage = Stage::ProbeStdinSize;
                },
                _ => {
                    self.stage = Stage::OpenPrimary { winsize: None };
                },
            },
            Stage::ProbeStdinSize => match reply {
                Reply::Size(size) => {
                    self.stage = Stage::OpenPrimary { winsize: Some(size) };
                },
                _ => {
                    self.stage = Stage::OpenPrimary { winsize: None };
                },
            },
            Stage::OpenPrimary { .. } => match reply {
                Reply::Done => self.after_primary(),
                _ => self.fail(&reply),
            },
            Stage::ProbeStderr => match reply {
                Reply::Attrs(attrs) => {
                    self.stage = Stage::ProbeStderrSize { attrs };
                },
                _ => {
                    self.stage = Stage::OpenSecondary { winsize: None, template: None };
                },
            },
            Stage::ProbeStderrSize { attrs } => match reply {
                Reply::Size(size) => {
                    self.stage = Stage::OpenSecondary {
                        winsize: Some(size),
                        template: Some(attrs),
                    };
                },
                _ => {
                    self.stage = Stage::OpenSecondary { winsize: None, template: Some(attrs) };
                },
            },
            Stage::OpenSecondary { .. } => match reply {
                Reply::Done => {
                    self.split = true;
                    self.stage = Stage::ProbeStderrMaster;
                },
                _ => self.fail(&reply),
            },
            Stage::ProbeStderrMaster => match reply {
                Reply::Attrs(attrs) => {
                    self.stage = Stage::TuneStderrMaster { attrs: attrs.without_opost() };
                },
                _ => {
                    self.stage = Stage::ProbeMaster;
                },
            },
            Stage::TuneStderrMaster { .. } => {
                self.stage = Stage::ProbeMaster;
            },
            Stage::EnterRaw { .. } => {
                self.guard = self.snapshot;
                self.stage = Stage::ProbeMaster;
            },
            Stage::ProbeMaster => match reply {
                Reply::Attrs(attrs) => self.after_probe_master(attrs),
                _ => {
                    self.stage = Stage::Fork;
                },
            },
            Stage::ProbeEcho { attrs } => match reply {
                Reply::Flag(tty) => {
                    self.stage = Stage::TuneMaster { attrs: pty_attrs(attrs, true, !tty) };
                },
                _ => {
                    self.stage = Stage::TuneMaster { attrs: pty_attrs(attrs, true, true) };
                },
            },
            Stage::TuneMaster { .. } => {
                self.stage = Stage::Fork;
            },
            Stage::Fork => match reply {
                Reply::Parent => {
                    self.stage = Stage::ParentCloseSlave;
                },
                Reply::Child => self.child_start(),
                _ => self.fail(&reply),
            },
            _ => {},
        }
    }

    fn advance_child(&mut self, reply: Reply)
        ensures
            final(self)@ == old(self)@.step_child(reply@),
    {
        let done = match reply {
            Reply::Done => true,
            _ => false,
        };
        if !done {
            self.fail(&reply);
            return ;
        }
        match self.stage {
            Stage::ChildExec => self.fail(&reply),
            Stage::ChildPager => {
                self.stage = Stage::ChildCloseMaster;
            },
            Stage::ChildCloseMaster => {
                if self.split {
                    self.stage = Stage::ChildCloseStderrMaster;
                } else {
                    self.stage = Stage::ChildLogin;
                }
            },
            Stage::ChildCloseStderrMaster => {
                self.stage = Stage::ChildLogin;
            },
            Stage::ChildLogin => {
                if self.split {
                    self.stage = Stage::ChildDup;
                } else {
                    self.child_exec();
                }
            },
            Stage::ChildDup => self.child_exec(),
            _ => {},
        }
    }

    fn advance_window(&mut self, reply: Reply)
        ensures
            final(self)@ == old(self)@.step_window(reply@),
    {
        match self.stage {
            Stage::ParentCloseSlave => {
                if self.split {
                    self.stage = Stage::ParentCloseStderrSlave;
                } else {
                    self.parent_ready();
                }
            },
            Stage::ParentCloseStderrSlave => self.parent_ready(),
            Stage::Watch => self.loop_top(),
            Stage::PollWinch => match reply {
                Reply::Flag(true) => {
                    self.stage = Stage::WinchSize;
                },
                _ => self.to_select(),
            },
            Stage::WinchSize => match reply {
                Reply::Size(size) => {
                    self.stage = Stage::WinchMaster { size };
                },
                _ => {
                    self.stage = Stage::WinchClear;
                },
            },
            Stage::WinchMaster { size } => {
                if self.split {
                    self.stage = Stage::WinchStderr { size };
                } else {
                    self.stage = Stage::WinchGroup;
                }
            },
            Stage::WinchStderr { .. } => {
                self.stage = Stage::WinchGroup;
            },
            Stage::WinchGroup => match reply {
                Reply::Group(group) => {
                    self.stage = Stage::WinchSignal { group };
                },
                _ => {
                    self.stage = Stage::WinchClear;
                },
            },
            Stage::WinchSignal { .. } => {
                self.stage = Stage::WinchClear;
            },
            Stage::WinchClear => self.to_select(),
            _ => {},
        }
    }

    fn advance_read(&mut self, reply: Reply)
        ensures
            final(self)@ == old(self)@.step_read(reply@),
    {
        match self.stage {
            Stage::Select => match reply {
                Reply::Ready(set) => {
                    self.ready = set.intersect(self.read_set());
                    self.serve_stdin();
                },
                Reply::Failed(e) => {
                    if e.is_transient() {
                        self.loop_top();
                    } else {
                        self.abort(&reply);
                    }
                },
                _ => self.abort(&reply),
            },
            Stage::ReadStdin => match reply {
                Reply::Data(data) => {
                    if data.len() == 0 {
                        self.read_stdin = false;
                        self.stage = Stage::EofProbe;
                    } else {
                        self.accept(Fd::Stdin, data);
                    }
                },
                Reply::Failed(e) => {
                    if e.is_transient() {
                        self.serve_in_file();
                    } else if e.is_io() {
                        self.done = true;
                        self.serve_in_file();
                    } else {
                        self.abort(&reply);
                    }
                },
                _ => self.abort(&reply),
            },
            Stage::EofProbe => match reply {
                Reply::Attrs(attrs) => {
                    if attrs.is_canonical() {
                        self.stage = Stage::EofSend { ch: attrs.eof_char() };
                    } else {
                        self.serve_in_file();
                    }
                },
                _ => self.serve_in_file(),
            },
            Stage::EofSend { .. } => self.serve_in_file(),
            Stage::ReadInFile => match reply {
                Reply::Data(data) => {
                    if data.len() == 0 {
                        self.serve_stderr();
                    } else {
                        self.accept(Fd::InFile, data);
                    }
                },
                Reply::Failed(e) => {
                    if e.is_transient() {
                        self.serve_stderr();
                    } else {
                        self.abort(&reply);
                    }
                },
                _ => self.abort(&reply),
            },
            Stage::ReadStderr => match reply {
                Reply::Data(data) => {
                    if data.len() == 0 {
                        self.serve_master();
                    } else {
                        self.accept(Fd::StderrMaster, data);
                    }
                },
                _ => self.serve_master(),
            },
            Stage::ReadMaster => match reply {
                Reply::Data(data) => {
                    if data.len() == 0 {
                        self.done = true;
                        self.loop_top();
                    } else {
                        self.accept(Fd::Master, data);
                    }
                },
                Reply::Failed(e) => {
                    if e.is_transient() {
                        self.loop_top();
                    } else if e.is_io() {
                        self.done = true;
                        self.loop_top();
                    } else {
                        self.abort(&reply);
                    }
                },
                _ => self.abort(&reply),
            },
            _ => {},
        }
    }

    fn advance_forward(&mut self, reply: Reply)
        ensures
            final(self)@ == old(self)@.step_forward(reply@),
    {
        match self.stage {
            Stage::Log { source } => match reply {
                Reply::Done => {
                    if self.options.flush {
                        self.stage = Stage::Flush { source };
                    } else {
                        self.stage = Stage::Send { source };
                    }
                },
                _ => self.abort(&reply),
            },
            Stage::Flush { source } => {
                self.stage = Stage::Send { source };
            },
            Stage::Send { source } => match reply {
                Reply::Written(n) => {
                    if n >= self.chunk.len() {
                        self.chunk = Vec::new();
                        self.after(source);
                    } else {
                        self.chunk = copy_tail(&self.chunk, n);
                    }
                },
                _ => self.abort(&reply),
            },
            Stage::Wait => match reply {
                Reply::Status(status) => {
                    self.stage = Stage::CloseMaster { outcome: Ok(exit_code(status)) };
                },
                _ => {
                    self.stage = Stage::CloseMaster { outcome: Err(reply.error()) };
                },
            },
            Stage::Reap { error } => {
                self.stage = Stage::CloseMaster { outcome: Err(error) };
            },
            Stage::CloseMaster { outcome } => self.leave(outcome),
            Stage::Restore { outcome, .. } => {
                self.stage = Stage::Finished { outcome };
            },
            _ => {},
        }
    }
}

/// Where a chunk read from `source` is written to.
fn destination(source: Fd) -> (r: Fd)
    ensures
        r == dest(source),
{
    match source {
        Fd::Master => Fd::Stdout,
        Fd::StderrMaster => Fd::Stderr,
        _ => Fd::Master,
    }
}

/// Tells whether chunks read from `source` go to the log.
fn records(source: Fd) -> (r: bool)
    ensures
        r == is_output(source),
{
    match source {
        Fd::Master | Fd::StderrMaster => true,
        _ => false,
    }
}

} // verus!
