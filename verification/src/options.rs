//! What to run and how: the options record and its builder.

use crate::errno::Errno;
use crate::files::{
    fifo_outcome, input_mode, log_mode, mkfifo_atomic, stdin_open_mode, stdout_open_mode, OpenMode,
};
use crate::model::State;
use crate::supervisor::{spawn, Supervisor};
use vstd::prelude::*;

verus! {

/// The input to the supervisor.
pub struct SpawnOptions {
    /// The program and its arguments.
    pub command: Vec<Vec<u8>>,
    /// Whether an auxiliary input file is attached.
    pub stdin_file: bool,
    /// Whether a log file is attached.
    pub stdout_file: bool,
    /// Keep the child's standard error apart and leave its output
    /// unprocessed.
    pub script_mode: bool,
    /// Flush the log after every write.
    pub flush: bool,
    /// Leave `ECHO` on in the PTY's line discipline.
    pub echo: bool,
    /// Leave the `PAGER` environment variable alone.
    pub pager: bool,
    /// Put the controlling terminal into raw mode.
    pub raw: bool,
}

/// A [`SpawnOptions`] with its command as sequences of bytes.
pub struct Options {
    pub command: Seq<Seq<u8>>,
    pub stdin_file: bool,
    pub stdout_file: bool,
    pub script_mode: bool,
    pub flush: bool,
    pub echo: bool,
    pub pager: bool,
    pub raw: bool,
}

impl Options {
    /// The options a builder starts from: nothing attached, script mode
    /// off, and flushing, echo, pager and raw mode on.
    pub open spec fn initial(command: Seq<Seq<u8>>) -> Options {
        Options {
            command,
            stdin_file: false,
            stdout_file: false,
            script_mode: false,
            flush: true,
            echo: true,
            pager: true,
            raw: true,
        }
    }
}

impl View for SpawnOptions {
    type V = Options;

    open spec fn view(&self) -> Options {
        Options {
            command: self.command.deep_view(),
            stdin_file: self.stdin_file,
            stdout_file: self.stdout_file,
            script_mode: self.script_mode,
            flush: self.flush,
            echo: self.echo,
            pager: self.pager,
            raw: self.raw,
        }
    }
}

/// Builds the options for a program to run with a terminal connected, and
/// starts its supervisor. A builder works once: [`TtySpawn::spawn`] uses it
/// up.
pub struct TtySpawn {
    options: Option<SpawnOptions>,
}

impl View for TtySpawn {
    type V = Option<Options>;

    closed spec fn view(&self) -> Option<Options> {
        match self.options {
            Some(options) => Some(options@),
            None => None,
        }
    }
}

impl TtySpawn {
    /// Creates a builder for the given program.
    pub fn new(cmd: Vec<u8>) -> (r: TtySpawn)
        ensures
            r@ == Some(Options::initial(seq![cmd@])),
    {
        let mut command: Vec<Vec<u8>> = Vec::new();
        command.push(cmd);
        assert(command.deep_view()[0] =~= cmd@);
        assert(command.deep_view() =~= seq![cmd@]);
        TtySpawn::new_cmdline(command)
    }

    /// Creates a builder for the given program and arguments.
    pub fn new_cmdline(cmdline: Vec<Vec<u8>>) -> (r: TtySpawn)
        requires
            cmdline.len() > 0,
        ensures
            r@ == Some(Options::initial(cmdline.deep_view())),
    {
        TtySpawn {
            options: Some(
                SpawnOptions {
                    command: cmdline,
                    stdin_file: false,
                    stdout_file: false,
                    script_mode: false,
                    flush: true,
                    echo: true,
                    pager: true,
                    raw: true,
                },
            ),
        }
    }

    /// Adds an argument to the command.
    pub fn arg(&mut self, arg: Vec<u8>) -> (ret: &mut Self)
        requires
            old(self)@ is Some,
        ensures
            ret@ == Some(
                Options { command: old(self)@->0.command.push(arg@), ..old(self)@->0 },
            ),
            *final(self) == *final(ret),
    {
        let ghost before = self.options->0.command.deep_view();
        match &mut self.options {
            Some(options) => {
                options.command.push(arg);
                assert(arg.deep_view() =~= arg@);
                assert(options.command.deep_view() =~= before.push(arg@));
            },
            None => {},
        }
        self
    }

    /// Adds several arguments to the command, in order.
    pub fn args(&mut self, args: Vec<Vec<u8>>) -> (ret: &mut Self)
        requires
            old(self)@ is Some,
        ensures
            ret@ == Some(
                Options {
                    command: old(self)@->0.command + args.deep_view(),
                    ..old(self)@->0
                },
            ),
            *final(self) == *final(ret),
    {
        let ghost before = self.options->0.command.deep_view();
        let mut args = args;
        let ghost added = args.deep_view();
        match &mut self.options {
            Some(options) => {
                options.command.append(&mut args);
                assert(options.command.deep_view() =~= before + added);
            },
            None => {},
        }
        self
    }

    /// Records that an auxiliary input file is attached. The caller has
    /// opened the file and keeps it; it should be open for reading without
    /// blocking.
    pub fn stdin_file(&mut self) -> (ret: &mut Self)
        requires
            old(self)@ is Some,
        ensures
            ret@ == Some(Options { stdin_file: true, ..old(self)@->0 }),
            *final(self) == *final(ret),
    {
        match &mut self.options {
            Some(options) => {
                options.stdin_file = true;
            },
            None => {},
        }
        self
    }

    /// Judges the outcome of creating a FIFO at the input path and tells how
    /// to open the path. A path that was already there is taken as it is;
    /// if the FIFO could not be created for another reason, that error is
    /// returned. Nothing is attached yet: that is for
    /// [`TtySpawn::stdin_opened`], once the path was opened.
    pub fn stdin_path(&self, made: Result<(), Errno>) -> (r: Result<OpenMode, Errno>)
        ensures
            r == match fifo_outcome(made) {
                Ok(()) => Ok::<OpenMode, Errno>(input_mode()),
                Err(e) => Err(e),
            },
    {
        match mkfifo_atomic(made) {
            Ok(()) => Ok(stdin_open_mode()),
            Err(e) => Err(e),
        }
    }

    /// Takes the outcome of opening the input path: if the path was opened,
    /// the input file is attached; if not, the builder stays as it was and
    /// the error is returned.
    pub fn stdin_opened(&mut self, opened: Result<(), Errno>) -> (r: Result<(), Errno>)
        requires
            old(self)@ is Some,
        ensures
            r == opened,
            opened is Ok ==> final(self)@ == Some(
                Options { stdin_file: true, ..old(self)@->0 },
            ),
            opened is Err ==> final(self)@ == old(self)@,
    {
        if opened.is_ok() {
            self.stdin_file();
        }
        opened
    }

    /// Records that a log file is attached. The caller has opened the file
    /// and keeps it.
    pub fn stdout_file(&mut self) -> (ret: &mut Self)
        requires
            old(self)@ is Some,
        ensures
            ret@ == Some(Options { stdout_file: true, ..old(self)@->0 }),
            *final(self) == *final(ret),
    {
        match &mut self.options {
            Some(options) => {
                options.stdout_file = true;
            },
            None => {},
        }
        self
    }

    /// Tells how to open the log path: truncated first, or appended to, and
    /// created if it is missing. Nothing is attached yet: that is for
    /// [`TtySpawn::stdout_opened`], once the path was opened.
    pub fn stdout_path(&self, truncate: bool) -> (r: OpenMode)
        ensures
            r == log_mode(truncate),
    {
        stdout_open_mode(truncate)
    }

    /// Takes the outcome of opening the log path: if the path was opened,
    /// the log file is attached; if not, the builder stays as it was and
    /// the error is returned.
    pub fn stdout_opened(&mut self, opened: Result<(), Errno>) -> (r: Result<(), Errno>)
        requires
            old(self)@ is Some,
        ensures
            r == opened,
            opened is Ok ==> final(self)@ == Some(
                Options { stdout_file: true, ..old(self)@->0 },
            ),
            opened is Err ==> final(self)@ == old(self)@,
    {
        if opened.is_ok() {
            self.stdout_file();
        }
        opened
    }

    /// Turns script mode on or off.
    pub fn script_mode(&mut self, yes: bool) -> (ret: &mut Self)
        requires
            old(self)@ is Some,
        ensures
            ret@ == Some(Options { script_mode: yes, ..old(self)@->0 }),
            *final(self) == *final(ret),
    {
        match &mut self.options {
            Some(options) => {
                options.script_mode = yes;
            },
            None => {},
        }
        self
    }

    /// Turns flushing of the log after every write on or off.
    pub fn flush(&mut self, yes: bool) -> (ret: &mut Self)
        requires
            old(self)@ is Some,
        ensures
            ret@ == Some(Options { flush: yes, ..old(self)@->0 }),
            *final(self) == *final(ret),
    {
        match &mut self.options {
            Some(options) => {
                options.flush = yes;
            },
            None => {},
        }
        self
    }

    /// Turns echo on the PTY on or off.
    pub fn echo(&mut self, yes: bool) -> (ret: &mut Self)
        requires
            old(self)@ is Some,
        ensures
            ret@ == Some(Options { echo: yes, ..old(self)@->0 }),
            *final(self) == *final(ret),
    {
        match &mut self.options {
            Some(options) => {
                options.echo = yes;
            },
            None => {},
        }
        self
    }

    /// Lets the child keep its pager, or has it use `cat`.
    pub fn pager(&mut self, yes: bool) -> (ret: &mut Self)
        requires
            old(self)@ is Some,
        ensures
            ret@ == Some(Options { pager: yes, ..old(self)@->0 }),
            *final(self) == *final(ret),
    {
        match &mut self.options {
            Some(options) => {
                options.pager = yes;
            },
            None => {},
        }
        self
    }

    /// Turns raw mode of the controlling terminal on or off.
    pub fn raw(&mut self, yes: bool) -> (ret: &mut Self)
        requires
            old(self)@ is Some,
        ensures
            ret@ == Some(Options { raw: yes, ..old(self)@->0 }),
            *final(self) == *final(ret),
    {
        match &mut self.options {
            Some(options) => {
                options.raw = yes;
            },
            None => {},
        }
        self
    }

    /// Uses the builder up and returns the supervisor for its options, about
    /// to make its first request.
    pub fn spawn(&mut self) -> (r: Supervisor)
        requires
            old(self)@ is Some,
        ensures
            final(self)@ is None,
            r@ == State::initial(old(self)@->0),
    {
        let options = self.options.take();
        spawn(options.unwrap())
    }
}

} // verus!
