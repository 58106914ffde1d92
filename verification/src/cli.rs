//! From the command line to the options.
//!
//! Parsing is the caller's business; what the parsed flags mean is decided
//! here.

use crate::options::{Options, TtySpawn};
use vstd::prelude::*;

verus! {

/// What was given on the command line.
pub struct CliArgs {
    /// The command and its arguments.
    pub command: Vec<Vec<u8>>,
    /// Run in script mode.
    pub script_mode: bool,
    /// Do not flush the log after every write.
    pub no_flush: bool,
    /// Do not echo input.
    pub no_echo: bool,
    /// Have the child use `cat` as its pager.
    pub no_pager: bool,
    /// Leave the terminal out of raw mode.
    pub no_raw: bool,
    /// Print the version and do nothing else.
    pub version: bool,
}

/// The options that a command line asks for.
pub open spec fn requested(args: CliArgs) -> Options {
    Options {
        command: args.command.deep_view(),
        stdin_file: false,
        stdout_file: false,
        script_mode: args.script_mode,
        flush: !args.no_flush,
        echo: !args.no_echo,
        pager: !args.no_pager,
        raw: !args.no_raw,
    }
}

/// Turns a parsed command line into a builder, or into nothing where only
/// the version is asked for. The files that the command line names are to
/// be opened as [`TtySpawn::stdin_path`] and [`TtySpawn::stdout_path`] say
/// and attached by [`TtySpawn::stdin_opened`] and
/// [`TtySpawn::stdout_opened`].
pub fn execute(args: CliArgs) -> (r: Option<TtySpawn>)
    requires
        args.version || args.command.len() > 0,
    ensures
        args.version ==> r is None,
        !args.version ==> (r matches Some(spawn) && spawn@ == Some(requested(args))),
{
    if args.version {
        return None;
    }
    let mut spawn = TtySpawn::new_cmdline(args.command);
    spawn.script_mode(args.script_mode);
    spawn.flush(!args.no_flush);
    spawn.echo(!args.no_echo);
    spawn.pager(!args.no_pager);
    spawn.raw(!args.no_raw);
    Some(spawn)
}

} // verus!
