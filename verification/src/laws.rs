//! What holds of every run of the supervisor.
//!
//! Each law speaks of an arbitrary run from the initial state: whatever the
//! options and whatever the replies, in any number.

use crate::attrs::{raw_mode, TermAttrs};
use crate::files::log_mode;
use crate::invariants::{
    lemma_closing, lemma_failed_stays, lemma_guarded, lemma_in_mode, lemma_installing,
    lemma_nothing_in_hand, lemma_requests_fit, lemma_run_well_formed, lemma_settled, lemma_sided,
    lemma_step_balanced, lemma_verdict, told,
};
use crate::model::{is_output, Stage, State};
use crate::options::Options;
use crate::protocol::{Fd, ReplyView, RequestView};
use crate::runs::{
    bytes_logged, bytes_produced, bytes_read, bytes_relayed, bytes_taken, bytes_to_log,
    bytes_written, child_awaited, failed, is_source, log_written, produced, reaped, run, side,
    taken, terminal, truthful, unlogged, unlogged_output, unsent, unsent_input, written_to, Side,
};
use crate::status::exit_status;
use vstd::prelude::*;

verus! {

/// A run that ends well has delivered everything: all that the child wrote
/// is on the wrapper's standard output, byte for byte and in order, and so
/// is its standard error on the wrapper's; with a log attached, the same
/// bytes are in the log; and all that was read from standard input and
/// from the input file was written to the primary PTY.
pub proof fn lemma_delivered(options: Options, replies: Seq<ReplyView>)
    ensures
        ({
            let start = State::initial(options);
            let end = run(start, replies);
            end.request() matches RequestView::Finish(Ok(code)) ==> {
                &&& bytes_written(start, replies, Fd::Stdout) == bytes_read(
                    start,
                    replies,
                    Fd::Master,
                )
                &&& bytes_written(start, replies, Fd::Stderr) == bytes_read(
                    start,
                    replies,
                    Fd::StderrMaster,
                )
                &&& options.stdout_file ==> {
                    &&& bytes_logged(start, replies, Fd::Master) == bytes_read(
                        start,
                        replies,
                        Fd::Master,
                    )
                    &&& bytes_logged(start, replies, Fd::StderrMaster) == bytes_read(
                        start,
                        replies,
                        Fd::StderrMaster,
                    )
                    &&& bytes_to_log(start, replies) == bytes_produced(start, replies)
                }
                &&& bytes_relayed(start, replies, Fd::Stdin) == bytes_read(start, replies, Fd::Stdin)
                &&& bytes_relayed(start, replies, Fd::InFile) == bytes_read(
                    start,
                    replies,
                    Fd::InFile,
                )
                &&& bytes_written(start, replies, Fd::Master) == bytes_taken(start, replies)
            }
        }),
{
    let start = State::initial(options);
    let end = run(start, replies);
    lemma_output_streams(options, replies);
    lemma_relayed_in_order(options, replies, Fd::Master);
    lemma_relayed_in_order(options, replies, Fd::StderrMaster);
    lemma_relayed_in_order(options, replies, Fd::Stdin);
    lemma_relayed_in_order(options, replies, Fd::InFile);
    lemma_input_in_order(options, replies);
    if options.stdout_file {
        lemma_logged_in_order(options, replies, Fd::Master);
        lemma_logged_in_order(options, replies, Fd::StderrMaster);
        lemma_log_in_order(options, replies);
    }
    if end.request() is Finish {
        lemma_nothing_in_hand(end);
        let nothing = Seq::<u8>::empty();
        assert forall|bytes: Seq<u8>| #[trigger] (bytes + nothing) == bytes by {
            assert(bytes + nothing =~= bytes);
        }
    }
}

/// Every byte read from a source is written to the source's destination,
/// in order and nothing else in between: as long as the run has not failed,
/// what was read is what was written followed by what is left of the chunk
/// in hand. Once the run has ended well, nothing is left.
pub proof fn lemma_relayed_in_order(options: Options, replies: Seq<ReplyView>, source: Fd)
    requires
        is_source(source),
    ensures
        ({
            let start = State::initial(options);
            let end = run(start, replies);
            &&& !failed(end) ==> bytes_read(start, replies, source) == bytes_relayed(
                start,
                replies,
                source,
            ) + unsent(end, source)
            &&& end.finished() && !failed(end) ==> bytes_read(start, replies, source)
                == bytes_relayed(start, replies, source)
        }),
    decreases replies.len(),
{
    let start = State::initial(options);
    if replies.len() > 0 {
        let before = replies.drop_last();
        let reply = replies.last();
        let s = run(start, before);
        lemma_relayed_in_order(options, before, source);
        lemma_run_well_formed(start, before);
        if failed(s) {
            lemma_failed_stays(s, reply);
        } else {
            lemma_step_balanced(s, reply);
        }
    }
}

/// The child's output is all that is written to the wrapper's standard
/// output, and the child's standard error all that is written to the
/// wrapper's.
pub proof fn lemma_output_streams(options: Options, replies: Seq<ReplyView>)
    ensures
        ({
            let start = State::initial(options);
            &&& bytes_written(start, replies, Fd::Stdout) == bytes_relayed(
                start,
                replies,
                Fd::Master,
            )
            &&& bytes_written(start, replies, Fd::Stderr) == bytes_relayed(
                start,
                replies,
                Fd::StderrMaster,
            )
        }),
    decreases replies.len(),
{
    let start = State::initial(options);
    if replies.len() > 0 {
        let before = replies.drop_last();
        lemma_output_streams(options, before);
        lemma_run_well_formed(start, before);
        lemma_step_balanced(run(start, before), replies.last());
    }
}

/// Where a log is attached, every byte of the child's output, and of its
/// standard error, is written to the log, in order: as long as the run
/// has not failed, what was read is what was logged, followed by the chunk
/// in hand if the log has not got it yet.
pub proof fn lemma_logged_in_order(options: Options, replies: Seq<ReplyView>, source: Fd)
    requires
        is_output(source),
        options.stdout_file,
    ensures
        ({
            let start = State::initial(options);
            let end = run(start, replies);
            &&& !failed(end) ==> bytes_read(start, replies, source) == bytes_logged(
                start,
                replies,
                source,
            ) + unlogged(end, source)
            &&& end.finished() && !failed(end) ==> bytes_read(start, replies, source)
                == bytes_logged(start, replies, source)
        }),
    decreases replies.len(),
{
    let start = State::initial(options);
    if replies.len() > 0 {
        let before = replies.drop_last();
        let reply = replies.last();
        let s = run(start, before);
        lemma_logged_in_order(options, before, source);
        lemma_run_well_formed(start, before);
        if failed(s) {
            lemma_failed_stays(s, reply);
        } else {
            lemma_step_balanced(s, reply);
        }
    }
}

/// What goes to the log is whole chunks of the child's output, one after
/// the other, and nothing else: as long as the run has not failed, the
/// bytes written to the log, followed by the chunk in hand if the log has
/// not got it yet, are the chunks read from the two PTYs in the order in
/// which they came.
pub proof fn lemma_log_in_order(options: Options, replies: Seq<ReplyView>)
    requires
        options.stdout_file,
    ensures
        ({
            let start = State::initial(options);
            let end = run(start, replies);
            !failed(end) ==> bytes_produced(start, replies) == bytes_to_log(start, replies)
                + unlogged_output(end)
        }),
    decreases replies.len(),
{
    let start = State::initial(options);
    if replies.len() > 0 {
        let before = replies.drop_last();
        let reply = replies.last();
        let s = run(start, before);
        lemma_log_in_order(options, before);
        lemma_run_well_formed(start, before);
        if failed(s) {
            lemma_failed_stays(s, reply);
        } else {
            lemma_step_balanced(s, reply);
            let a = bytes_to_log(start, before);
            let b = unlogged_output(s);
            let c = produced(s, reply);
            let d = log_written(s, reply);
            let e = unlogged_output(s.step(reply));
            assert((a + b) + c =~= a + (b + c));
            assert(a + (d + e) =~= (a + d) + e);
        }
    }
}

/// After a run that ended well, a log that was opened without truncation
/// holds what it held before followed by the child's output, and one that
/// was opened with truncation holds the child's output only.
pub proof fn lemma_log_contents(
    options: Options,
    replies: Seq<ReplyView>,
    truncate: bool,
    prior: Seq<u8>,
)
    requires
        options.stdout_file,
    ensures
        ({
            let start = State::initial(options);
            let log = log_mode(truncate).contents(prior, bytes_to_log(start, replies));
            run(start, replies).request() matches RequestView::Finish(Ok(code)) ==> {
                &&& !truncate ==> log == prior + bytes_produced(start, replies)
                &&& truncate ==> log == bytes_produced(start, replies)
            }
        }),
{
    lemma_delivered(options, replies);
}

/// Nothing reaches the terminal before it reached the log: where a log is
/// attached, what was written of the child's output is the beginning of
/// what was logged of it.
pub proof fn lemma_log_comes_first(options: Options, replies: Seq<ReplyView>, source: Fd)
    requires
        is_output(source),
        options.stdout_file,
    ensures
        ({
            let start = State::initial(options);
            !failed(run(start, replies)) ==> bytes_relayed(start, replies, source).is_prefix_of(
                bytes_logged(start, replies, source),
            )
        }),
{
    let start = State::initial(options);
    let end = run(start, replies);
    lemma_relayed_in_order(options, replies, source);
    lemma_logged_in_order(options, replies, source);
    if !failed(end) {
        let relayed = bytes_relayed(start, replies, source);
        let logged = bytes_logged(start, replies, source);
        if end.stage == (Stage::Log { source }) {
            assert(relayed =~= (relayed + end.chunk).take(relayed.len() as int));
            assert(logged =~= (logged + end.chunk).take(logged.len() as int));
            assert(relayed =~= logged);
        } else {
            assert(logged + unlogged(end, source) =~= logged);
            assert(relayed =~= logged.take(relayed.len() as int));
        }
    }
}

/// What goes to the child as input is whole chunks, one after the other:
/// as long as the run has not failed, the bytes written to the primary
/// PTY, followed by what is left of the chunk in hand, are the chunks read
/// from standard input and from the input file and the end-of-file
/// characters typed, in the order in which they came. No chunk is broken
/// up by bytes of another.
pub proof fn lemma_input_in_order(options: Options, replies: Seq<ReplyView>)
    ensures
        ({
            let start = State::initial(options);
            let end = run(start, replies);
            !failed(end) ==> bytes_taken(start, replies) == bytes_written(
                start,
                replies,
                Fd::Master,
            ) + unsent_input(end)
        }),
    decreases replies.len(),
{
    let start = State::initial(options);
    if replies.len() > 0 {
        let before = replies.drop_last();
        let reply = replies.last();
        let s = run(start, before);
        lemma_input_in_order(options, before);
        lemma_run_well_formed(start, before);
        if failed(s) {
            lemma_failed_stays(s, reply);
        } else {
            lemma_step_balanced(s, reply);
            let a = bytes_written(start, before, Fd::Master);
            let b = unsent_input(s);
            let c = taken(s, reply);
            let d = written_to(s, reply, Fd::Master);
            let e = unsent_input(s.step(reply));
            assert((a + b) + c =~= a + (b + c));
            assert(a + (d + e) =~= (a + d) + e);
        }
    }
}

/// The supervisor writes to the primary PTY and to its own standard output
/// and standard error, and to nothing else: not to its standard input, and
/// not to the input file.
pub proof fn lemma_write_targets(state: State)
    ensures
        state.request() matches RequestView::Write(fd, data) ==> fd is Master || fd is Stdout
            || fd is Stderr,
{
}

/// Nothing is asked of what is not there: without a log, nothing is written
/// to it or flushed; without an input file, nothing is read from it; and
/// outside script mode, nothing is read from a second PTY.
pub proof fn lemma_only_what_is_there(options: Options, replies: Seq<ReplyView>)
    ensures
        ({
            let end = run(State::initial(options), replies);
            &&& !options.stdout_file ==> !(end.request() is LogWrite) && !(end.request()
                is LogFlush)
            &&& !options.stdin_file ==> end.request() != RequestView::Read(Fd::InFile)
            &&& !options.script_mode ==> end.request() != RequestView::Read(Fd::StderrMaster)
        }),
{
    let start = State::initial(options);
    lemma_run_well_formed(start, replies);
    lemma_in_mode(options, replies);
    lemma_requests_fit(run(start, replies));
}

/// Whatever way a run ends, it leaves the controlling terminal as it found
/// it. Until then, if the terminal is not as it was found, the supervisor
/// holds the attributes to put back.
pub proof fn lemma_terminal_restored(options: Options, replies: Seq<ReplyView>, found: TermAttrs)
    requires
        truthful(replies, found),
    ensures
        ({
            let start = State::initial(options);
            let end = run(start, replies);
            &&& end.finished() ==> terminal(start, replies, found) == found
            &&& terminal(start, replies, found) != found ==> end.guard == Some(found)
        }),
{
    lemma_guarded(options, replies, found);
}

/// In script mode, and where raw mode is turned off, the controlling
/// terminal is left alone throughout.
pub proof fn lemma_terminal_left_alone(options: Options, replies: Seq<ReplyView>, found: TermAttrs)
    requires
        truthful(replies, found),
        options.script_mode || !options.raw,
    ensures
        terminal(State::initial(options), replies, found) == found,
{
    let start = State::initial(options);
    lemma_guarded(options, replies, found);
    lemma_in_mode(options, replies);
    lemma_run_well_formed(start, replies);
}

/// A run ends well only after it waited for the child, and then with the
/// exit code for how the child ended: the status of a normal exit, 128
/// plus the signal number for a signal, 1 otherwise. Once the child was
/// waited for, the run cannot end otherwise.
pub proof fn lemma_exit_code(options: Options, replies: Seq<ReplyView>)
    ensures
        ({
            let start = State::initial(options);
            let end = run(start, replies);
            &&& end.request() matches RequestView::Finish(Ok(code)) ==> (reaped(start, replies)
                matches Some(status) && code == exit_status(status))
            &&& reaped(start, replies) matches Some(status) ==> (end.finished() ==> end.request()
                == RequestView::Finish(Ok(exit_status(status) as i32)))
        }),
{
    lemma_settled(options, replies);
    lemma_verdict(run(State::initial(options), replies));
}

/// The attributes installed on the primary PTY have `OPOST` cleared in
/// script mode, so that the child's line feeds stay line feeds, and `ECHO`
/// cleared where echo is turned off. The PTY that carries the child's
/// standard error is there in script mode only, and what is installed on
/// it has `OPOST` cleared too. On the controlling terminal nothing
/// is ever installed but the snapshot made raw, with `ECHO` cleared, and
/// the snapshot itself; and that only with raw mode on, outside script
/// mode.
pub proof fn lemma_attrs_installed(options: Options, replies: Seq<ReplyView>)
    ensures
        ({
            let end = run(State::initial(options), replies);
            &&& end.request() matches RequestView::SetAttrs(Fd::Master, attrs) ==> {
                &&& options.script_mode ==> !attrs.post_processes()
                &&& !options.echo ==> !attrs.echoes()
            }
            &&& end.request() matches RequestView::SetAttrs(Fd::StderrMaster, attrs)
                ==> options.script_mode && !attrs.post_processes()
            &&& end.request() matches RequestView::SetAttrs(Fd::Stdin, attrs) ==> {
                &&& options.raw && !options.script_mode
                &&& end.snapshot matches Some(snapshot) && (attrs == snapshot || (attrs
                    == raw_mode(snapshot).echo_off() && !attrs.echoes()))
            }
        }),
{
    let start = State::initial(options);
    lemma_in_mode(options, replies);
    lemma_guarded(options, replies, told(replies));
    lemma_run_well_formed(start, replies);
    lemma_installing(run(start, replies));
}

/// Termination always reaps the child: on the parent's side of the fork a
/// run ends, well or not, only after it has asked to wait for the child
/// and got an answer.
pub proof fn lemma_always_reaped(options: Options, replies: Seq<ReplyView>)
    ensures
        ({
            let start = State::initial(options);
            run(start, replies).finished() && side(start, replies) == Some(Side::Parent)
                ==> child_awaited(start, replies)
        }),
{
    lemma_sided(options, replies);
}

/// Each end of a PTY is closed on one side of the fork: the slaves in the
/// parent, the masters in the child. The parent closes the primary master
/// too, but only once it has waited for the child.
pub proof fn lemma_pty_ends(options: Options, replies: Seq<ReplyView>)
    ensures
        ({
            let start = State::initial(options);
            let end = run(start, replies);
            &&& end.request() == RequestView::Close(Fd::Slave) ==> side(start, replies) == Some(
                Side::Parent,
            )
            &&& end.request() == RequestView::Close(Fd::StderrSlave) ==> side(start, replies)
                == Some(Side::Parent)
            &&& end.request() == RequestView::Close(Fd::StderrMaster) ==> side(start, replies)
                == Some(Side::Child)
            &&& end.request() == RequestView::Close(Fd::Master) ==> side(start, replies) == Some(
                Side::Child,
            ) || (side(start, replies) == Some(Side::Parent) && child_awaited(start, replies))
        }),
{
    let start = State::initial(options);
    lemma_sided(options, replies);
    lemma_closing(run(start, replies));
}

} // verus!
