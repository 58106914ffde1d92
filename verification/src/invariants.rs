//! What every step of the supervisor keeps.
//!
//! The laws of the crate follow from two facts about single steps: a step
//! keeps the books balanced ([`step_balanced`]), and it keeps the state in
//! line with the terminal, the child and the options ([`keeps`]). Both are
//! proved stage by stage.

use crate::attrs::{raw_mode, tuned, TermAttrs, ECHO, OPOST};
use crate::model::{is_output, Stage, State};
use crate::options::Options;
use crate::protocol::{Fd, ReplyView, RequestView};
use crate::runs::{
    awaited, child_awaited, failed, forked, installed, is_source, log_written, logged_from, produced, read_from, reaped,
    relayed_from, run, side, taken, terminal, truthful, unlogged, unlogged_output, unsent,
    unsent_input, verdict, waited, written_to, Side,
};
use crate::status::{exit_status, ChildStatus};
use vstd::prelude::*;

verus! {

/// Whether the stage belongs to the setup, up to the fork.
pub open spec fn in_setup(stage: Stage) -> bool {
    stage is ProbeStdin || stage is ProbeStdinSize || stage is OpenPrimary || stage is ProbeStderr
        || stage is ProbeStderrSize || stage is OpenSecondary || stage is ProbeStderrMaster
        || stage is TuneStderrMaster || stage is EnterRaw || stage is ProbeMaster
        || stage is ProbeEcho || stage is TuneMaster || stage is Fork
}

/// Whether the stage belongs to the child.
pub open spec fn in_child(stage: Stage) -> bool {
    stage is ChildPager || stage is ChildCloseMaster || stage is ChildCloseStderrMaster
        || stage is ChildLogin || stage is ChildDup || stage is ChildExec
}

/// Whether the stage is one where the parent gets ready or passes a window
/// change on.
pub open spec fn in_window(stage: Stage) -> bool {
    stage is ParentCloseSlave || stage is ParentCloseStderrSlave || stage is Watch
        || stage is PollWinch || stage is WinchSize || stage is WinchMaster
        || stage is WinchStderr || stage is WinchGroup || stage is WinchSignal
        || stage is WinchClear
}

/// Whether the stage is one where the parent waits for input or reads it.
pub open spec fn in_read(stage: Stage) -> bool {
    stage is Select || stage is ReadStdin || stage is EofProbe || stage is EofSend
        || stage is ReadInFile || stage is ReadStderr || stage is ReadMaster
}

/// Whether the stage is one where a chunk is on its way or the run ends.
pub open spec fn in_forward(stage: Stage) -> bool {
    stage is Log || stage is Flush || stage is Send || stage is Wait || stage is Reap
        || stage is CloseMaster || stage is Restore || stage is Finished
}

/// Whether the state is one that a run can be in: the chunk in hand, if
/// any, was read from a descriptor that the supervisor reads from, and is
/// bound for the log only if it is output of the child and there is a log;
/// and only descriptors that exist are read from.
pub open spec fn well_formed(state: State) -> bool {
    &&& match state.stage {
        Stage::Log { source } => is_output(source) && state.options.stdout_file,
        Stage::Flush { source } => is_output(source) && state.options.stdout_file,
        Stage::Send { source } => is_source(source),
        Stage::ReadInFile => state.options.stdin_file,
        Stage::ReadStderr => state.split,
        _ => true,
    }
    &&& state.ready.in_file ==> state.options.stdin_file
    &&& state.ready.stderr ==> state.split
}

/// Across one step, what was in hand of a source and what came in from it
/// is what went out of it and what is in hand afterwards.
pub open spec fn relay_balanced(state: State, reply: ReplyView, source: Fd) -> bool {
    unsent(state, source) + read_from(state, reply, source) == relayed_from(
        state,
        reply,
        source,
    ) + unsent(state.step(reply), source)
}

/// The same balance for the log, where there is one.
pub open spec fn log_balanced(state: State, reply: ReplyView, source: Fd) -> bool {
    unlogged(state, source) + read_from(state, reply, source) == logged_from(
        state,
        reply,
        source,
    ) + unlogged(state.step(reply), source)
}

/// The same balance for everything that goes to the primary PTY.
pub open spec fn input_balanced(state: State, reply: ReplyView) -> bool {
    unsent_input(state) + taken(state, reply) == written_to(state, reply, Fd::Master)
        + unsent_input(state.step(reply))
}

/// The same balance for everything that goes to the log, where there is
/// one.
pub open spec fn record_balanced(state: State, reply: ReplyView) -> bool {
    unlogged_output(state) + produced(state, reply) == log_written(state, reply)
        + unlogged_output(state.step(reply))
}

/// What one step keeps, unless it fails the run.
pub open spec fn step_balanced(state: State, reply: ReplyView) -> bool {
    &&& state.step(reply).options == state.options
    &&& well_formed(state.step(reply))
    &&& written_to(state, reply, Fd::Stdout) == relayed_from(state, reply, Fd::Master)
    &&& written_to(state, reply, Fd::Stderr) == relayed_from(state, reply, Fd::StderrMaster)
    &&& !failed(state.step(reply)) ==> {
        &&& relay_balanced(state, reply, Fd::Stdin)
        &&& relay_balanced(state, reply, Fd::InFile)
        &&& relay_balanced(state, reply, Fd::StderrMaster)
        &&& relay_balanced(state, reply, Fd::Master)
        &&& state.options.stdout_file ==> log_balanced(state, reply, Fd::StderrMaster)
        &&& state.options.stdout_file ==> log_balanced(state, reply, Fd::Master)
        &&& state.options.stdout_file ==> record_balanced(state, reply)
        &&& input_balanced(state, reply)
    }
}

/// Sequences that are equal element by element are equal: this spells the
/// balances out so that they are compared that way.
pub proof fn lemma_balance(state: State, reply: ReplyView)
    requires
        ({
            let next = state.step(reply);
            &&& next.options == state.options
            &&& well_formed(next)
            &&& written_to(state, reply, Fd::Stdout) =~= relayed_from(state, reply, Fd::Master)
            &&& written_to(state, reply, Fd::Stderr) =~= relayed_from(
                state,
                reply,
                Fd::StderrMaster,
            )
            &&& !failed(next) ==> {
                &&& forall|source: Fd| #[trigger]
                    is_source(source) ==> unsent(state, source) + read_from(
                        state,
                        reply,
                        source,
                    ) =~= relayed_from(state, reply, source) + unsent(next, source)
                &&& forall|source: Fd| #[trigger]
                    is_output(source) && state.options.stdout_file ==> unlogged(state, source)
                        + read_from(state, reply, source) =~= logged_from(state, reply, source)
                        + unlogged(next, source)
                &&& unsent_input(state) + taken(state, reply) =~= written_to(
                    state,
                    reply,
                    Fd::Master,
                ) + unsent_input(next)
                &&& state.options.stdout_file ==> unlogged_output(state) + produced(state, reply)
                    =~= log_written(state, reply) + unlogged_output(next)
            }
        }),
    ensures
        step_balanced(state, reply),
{
    assert(is_source(Fd::Stdin) && is_source(Fd::InFile) && is_source(Fd::StderrMaster)
        && is_source(Fd::Master));
    assert(is_output(Fd::StderrMaster) && is_output(Fd::Master));
}

/// The setup keeps the balances.
pub proof fn lemma_balanced_setup(state: State, reply: ReplyView)
    requires
        well_formed(state),
        in_setup(state.stage),
    ensures
        step_balanced(state, reply),
{
    lemma_balance(state, reply);
}

/// The child keeps the balances.
pub proof fn lemma_balanced_child(state: State, reply: ReplyView)
    requires
        well_formed(state),
        in_child(state.stage),
    ensures
        step_balanced(state, reply),
{
    lemma_balance(state, reply);
}

/// Getting ready and passing a window change on keep the balances.
pub proof fn lemma_balanced_window(state: State, reply: ReplyView)
    requires
        well_formed(state),
        in_window(state.stage),
    ensures
        step_balanced(state, reply),
{
    lemma_balance(state, reply);
}

/// Waiting for input and reading it keep the balances.
pub proof fn lemma_balanced_read(state: State, reply: ReplyView)
    requires
        well_formed(state),
        in_read(state.stage),
    ensures
        step_balanced(state, reply),
{
    lemma_balance(state, reply);
}

/// Forwarding a chunk and ending the run keep the balances.
pub proof fn lemma_balanced_forward(state: State, reply: ReplyView)
    requires
        well_formed(state),
        in_forward(state.stage),
    ensures
        step_balanced(state, reply),
{
    if let Stage::Send { source } = state.stage {
        if let ReplyView::Written(n) = reply {
            if n < state.chunk.len() {
                assert(state.chunk =~= state.chunk.take(n as int) + state.chunk.skip(n as int));
            }
        }
    }
    lemma_balance(state, reply);
}

/// Every step keeps the balances.
pub proof fn lemma_step_balanced(state: State, reply: ReplyView)
    requires
        well_formed(state),
    ensures
        step_balanced(state, reply),
{
    if in_setup(state.stage) {
        lemma_balanced_setup(state, reply);
    } else if in_child(state.stage) {
        lemma_balanced_child(state, reply);
    } else if in_window(state.stage) {
        lemma_balanced_window(state, reply);
    } else if in_read(state.stage) {
        lemma_balanced_read(state, reply);
    } else {
        lemma_balanced_forward(state, reply);
    }
}

/// A run that has failed stays failed.
pub proof fn lemma_failed_stays(state: State, reply: ReplyView)
    requires
        failed(state),
    ensures
        failed(state.step(reply)),
{
}

/// The options stay what they were at the start, and the state stays well
/// formed.
pub proof fn lemma_run_well_formed(start: State, replies: Seq<ReplyView>)
    requires
        well_formed(start),
    ensures
        run(start, replies).options == start.options,
        well_formed(run(start, replies)),
    decreases replies.len(),
{
    if replies.len() > 0 {
        lemma_run_well_formed(start, replies.drop_last());
        lemma_step_balanced(run(start, replies.drop_last()), replies.last());
    }
}

/// What holds between the state and the controlling terminal: as long as
/// the terminal is not as it was found, the guard holds what to put back.
pub open spec fn guarded(state: State, current: TermAttrs, found: TermAttrs) -> bool {
    &&& state.snapshot matches Some(attrs) ==> attrs == found
    &&& state.guard is Some ==> state.guard == state.snapshot
    &&& state.stage matches Stage::Restore { attrs, outcome } ==> state.guard == Some(attrs)
    &&& state.stage is EnterRaw ==> state.snapshot is Some
    &&& current == found || (state.guard is Some && !state.finished())
}

/// What holds between the state and the way the child ended: the exit code
/// is settled exactly when the child was waited for, and it is the code
/// for how the child ended.
pub open spec fn settled(state: State, known: Option<ChildStatus>) -> bool {
    match known {
        Some(status) => verdict(state) == Some(exit_status(status) as i32),
        None => verdict(state) is None,
    }
}

/// What holds of the attributes the supervisor is about to install, and of
/// what it does only in one mode or the other.
pub open spec fn in_mode(state: State) -> bool {
    &&& state.stage matches Stage::TuneMaster { attrs } ==> {
        &&& state.options.script_mode ==> !attrs.post_processes()
        &&& !state.options.echo ==> !attrs.echoes()
    }
    &&& state.stage matches Stage::TuneStderrMaster { attrs } ==> !attrs.post_processes()
    &&& state.stage matches Stage::EnterRaw { attrs } ==> {
        &&& !attrs.echoes()
        &&& state.snapshot matches Some(snapshot) && attrs == raw_mode(snapshot).echo_off()
    }
    &&& (state.stage is EnterRaw || state.guard is Some) ==> state.options.raw
        && !state.options.script_mode
    &&& (state.split || state.stage is ProbeStderr || state.stage is ProbeStderrSize
        || state.stage is OpenSecondary || state.stage is ProbeStderrMaster
        || state.stage is TuneStderrMaster || state.stage is ProbeEcho)
        ==> state.options.script_mode
    &&& state.stage is ProbeEcho ==> state.options.echo
}

/// What holds between the state and the side of the fork: before the fork
/// the run is on no side, the stages of the child are the child's, and
/// those of the loop and of the wait for the child are the parent's. On the
/// parent's side there is no way to the end but past the wait for the
/// child.
pub open spec fn sided(state: State, on: Option<Side>, reaped: bool) -> bool {
    &&& in_setup(state.stage) ==> on is None
    &&& in_child(state.stage) ==> on == Some(Side::Child)
    &&& (in_window(state.stage) || in_read(state.stage) || state.stage is Log
        || state.stage is Flush || state.stage is Send || state.stage is Wait
        || state.stage is Reap || state.stage is CloseMaster) ==> on == Some(Side::Parent)
    &&& state.stage is CloseMaster ==> reaped
    &&& (state.stage is Restore || state.stage is Finished) && on == Some(Side::Parent)
        ==> reaped
}

/// All that a step keeps besides the balances.
pub open spec fn kept(
    state: State,
    current: TermAttrs,
    found: TermAttrs,
    known: Option<ChildStatus>,
    on: Option<Side>,
    reaped: bool,
) -> bool {
    &&& guarded(state, current, found)
    &&& settled(state, known)
    &&& in_mode(state)
    &&& sided(state, on, reaped)
}

/// What a step must be given and what it then keeps.
pub open spec fn keeps(
    state: State,
    reply: ReplyView,
    current: TermAttrs,
    found: TermAttrs,
    known: Option<ChildStatus>,
    on: Option<Side>,
    reaped: bool,
) -> bool {
    let next = state.step(reply);
    &&& kept(
        next,
        installed(state, current),
        found,
        waited(state, reply, known),
        forked(state, reply, on),
        awaited(state, reaped),
    )
    &&& !(next.stage is ProbeStdin)
}

/// Clearing a flag clears it.
pub proof fn lemma_tuned(attrs: TermAttrs, script_mode: bool, mute: bool)
    ensures
        script_mode ==> !tuned(attrs, script_mode, mute).post_processes(),
        mute ==> !tuned(attrs, script_mode, mute).echoes(),
        !attrs.echo_off().echoes(),
{
    let output: u32 = attrs.output_flags;
    let local: u32 = attrs.local_flags;
    assert((output & !OPOST) & OPOST == 0) by (bit_vector);
    assert((local & !ECHO) & ECHO == 0) by (bit_vector);
}

/// The setup keeps the state in line, given that the first reply is
/// truthful.
pub proof fn lemma_kept_setup(
    state: State,
    reply: ReplyView,
    current: TermAttrs,
    found: TermAttrs,
    known: Option<ChildStatus>,
    on: Option<Side>,
    reaped: bool,
)
    requires
        in_setup(state.stage),
        kept(state, current, found, known, on, reaped),
        state.stage is ProbeStdin ==> (reply matches ReplyView::Attrs(attrs) ==> attrs == found),
    ensures
        keeps(state, reply, current, found, known, on, reaped),
{
    if state.snapshot is Some {
        lemma_tuned(raw_mode(state.snapshot->0), false, true);
    }
    match state.stage {
        Stage::ProbeMaster => {
            if let ReplyView::Attrs(attrs) = reply {
                lemma_tuned(attrs, state.options.script_mode, true);
                lemma_tuned(attrs, false, false);
            }
        },
        Stage::ProbeEcho { attrs } => {
            lemma_tuned(attrs, true, true);
            lemma_tuned(attrs, true, false);
        },
        Stage::ProbeStderrMaster => {
            if let ReplyView::Attrs(attrs) = reply {
                lemma_tuned(attrs, true, false);
            }
        },
        _ => {},
    }
}

/// The child keeps the state in line.
pub proof fn lemma_kept_child(
    state: State,
    reply: ReplyView,
    current: TermAttrs,
    found: TermAttrs,
    known: Option<ChildStatus>,
    on: Option<Side>,
    reaped: bool,
)
    requires
        in_child(state.stage),
        kept(state, current, found, known, on, reaped),
    ensures
        keeps(state, reply, current, found, known, on, reaped),
{
}

/// Getting ready and passing a window change on keep the state in line.
pub proof fn lemma_kept_window(
    state: State,
    reply: ReplyView,
    current: TermAttrs,
    found: TermAttrs,
    known: Option<ChildStatus>,
    on: Option<Side>,
    reaped: bool,
)
    requires
        in_window(state.stage),
        kept(state, current, found, known, on, reaped),
    ensures
        keeps(state, reply, current, found, known, on, reaped),
{
}

/// Waiting for input and reading it keep the state in line.
pub proof fn lemma_kept_read(
    state: State,
    reply: ReplyView,
    current: TermAttrs,
    found: TermAttrs,
    known: Option<ChildStatus>,
    on: Option<Side>,
    reaped: bool,
)
    requires
        in_read(state.stage),
        kept(state, current, found, known, on, reaped),
    ensures
        keeps(state, reply, current, found, known, on, reaped),
{
}

/// Forwarding a chunk and ending the run keep the state in line.
pub proof fn lemma_kept_forward(
    state: State,
    reply: ReplyView,
    current: TermAttrs,
    found: TermAttrs,
    known: Option<ChildStatus>,
    on: Option<Side>,
    reaped: bool,
)
    requires
        in_forward(state.stage),
        kept(state, current, found, known, on, reaped),
    ensures
        keeps(state, reply, current, found, known, on, reaped),
{
}

/// Every run from the initial state keeps the state in line with the
/// terminal as it was found, given that the first reply is truthful.
pub proof fn lemma_kept_run(options: Options, replies: Seq<ReplyView>, found: TermAttrs)
    requires
        truthful(replies, found),
    ensures
        ({
            let start = State::initial(options);
            kept(
                run(start, replies),
                terminal(start, replies, found),
                found,
                reaped(start, replies),
                side(start, replies),
                child_awaited(start, replies),
            )
        }),
        replies.len() > 0 ==> !(run(State::initial(options), replies).stage is ProbeStdin),
    decreases replies.len(),
{
    let start = State::initial(options);
    if replies.len() > 0 {
        let before = replies.drop_last();
        let reply = replies.last();
        let s = run(start, before);
        let current = terminal(start, before, found);
        let known = reaped(start, before);
        let on = side(start, before);
        let gone = child_awaited(start, before);
        assert(before.len() > 0 ==> before[0] == replies[0]);
        lemma_kept_run(options, before, found);
        if in_setup(s.stage) {
            lemma_kept_setup(s, reply, current, found, known, on, gone);
        } else if in_child(s.stage) {
            lemma_kept_child(s, reply, current, found, known, on, gone);
        } else if in_window(s.stage) {
            lemma_kept_window(s, reply, current, found, known, on, gone);
        } else if in_read(s.stage) {
            lemma_kept_read(s, reply, current, found, known, on, gone);
        } else {
            lemma_kept_forward(s, reply, current, found, known, on, gone);
        }
    }
}

/// The attributes that the first reply tells, if it tells any.
pub open spec fn told(replies: Seq<ReplyView>) -> TermAttrs {
    if replies.len() > 0 && replies[0] is Attrs {
        replies[0]->Attrs_0
    } else {
        arbitrary()
    }
}

/// Every run from the initial state keeps the state in line with what the
/// first reply told of the terminal.
pub proof fn lemma_kept(options: Options, replies: Seq<ReplyView>)
    ensures
        ({
            let start = State::initial(options);
            kept(
                run(start, replies),
                terminal(start, replies, told(replies)),
                told(replies),
                reaped(start, replies),
                side(start, replies),
                child_awaited(start, replies),
            )
        }),
{
    lemma_kept_run(options, replies, told(replies));
}

/// Every run keeps the terminal guarded.
pub proof fn lemma_guarded(options: Options, replies: Seq<ReplyView>, found: TermAttrs)
    requires
        truthful(replies, found),
    ensures
        guarded(
            run(State::initial(options), replies),
            terminal(State::initial(options), replies, found),
            found,
        ),
{
    lemma_kept_run(options, replies, found);
}

/// Every run keeps the exit code settled as the child ended.
pub proof fn lemma_settled(options: Options, replies: Seq<ReplyView>)
    ensures
        settled(run(State::initial(options), replies), reaped(State::initial(options), replies)),
{
    lemma_kept(options, replies);
}

/// Every run stays within its mode.
pub proof fn lemma_in_mode(options: Options, replies: Seq<ReplyView>)
    ensures
        in_mode(run(State::initial(options), replies)),
{
    lemma_kept(options, replies);
}

/// Every run stays on its side of the fork, and on the parent's side it
/// ends only past the wait for the child.
pub proof fn lemma_sided(options: Options, replies: Seq<ReplyView>)
    ensures
        sided(
            run(State::initial(options), replies),
            side(State::initial(options), replies),
            child_awaited(State::initial(options), replies),
        ),
{
    lemma_kept(options, replies);
}

/// How the request tells the exit code that is settled.
pub proof fn lemma_verdict(state: State)
    ensures
        state.request() matches RequestView::Finish(Ok(code)) ==> verdict(state) == Some(code),
        state.finished() ==> (verdict(state) matches Some(code) ==> state.request()
            == RequestView::Finish(Ok(code))),
{
}

/// In a state that a run can be in, what is asked for is there.
pub proof fn lemma_requests_fit(state: State)
    requires
        well_formed(state),
        state.split ==> state.options.script_mode,
    ensures
        !state.options.stdout_file ==> !(state.request() is LogWrite) && !(state.request()
            is LogFlush),
        !state.options.stdin_file ==> state.request() != RequestView::Read(Fd::InFile),
        !state.options.script_mode ==> state.request() != RequestView::Read(Fd::StderrMaster),
{
}

/// A state whose request is a good result has nothing in hand.
pub proof fn lemma_nothing_in_hand(state: State)
    requires
        state.request() is Finish,
    ensures
        state.finished(),
        failed(state) <==> state.request() matches RequestView::Finish(Err(e)),
        unsent(state, Fd::Stdin) == Seq::<u8>::empty(),
        unsent(state, Fd::InFile) == Seq::<u8>::empty(),
        unsent(state, Fd::StderrMaster) == Seq::<u8>::empty(),
        unsent(state, Fd::Master) == Seq::<u8>::empty(),
        unlogged(state, Fd::StderrMaster) == Seq::<u8>::empty(),
        unlogged(state, Fd::Master) == Seq::<u8>::empty(),
        unsent_input(state) == Seq::<u8>::empty(),
        unlogged_output(state) == Seq::<u8>::empty(),
{
    assert(unsent_input(state) =~= Seq::<u8>::empty());
    assert(unlogged_output(state) =~= Seq::<u8>::empty());
}

/// The stages in which attributes are installed.
pub proof fn lemma_installing(state: State)
    ensures
        state.request() matches RequestView::SetAttrs(Fd::Master, attrs) ==> state.stage
            == (Stage::TuneMaster { attrs }),
        state.request() matches RequestView::SetAttrs(Fd::StderrMaster, attrs) ==> state.stage
            == (Stage::TuneStderrMaster { attrs }),
        state.request() matches RequestView::SetAttrs(fd, attrs) ==> fd is Master
            || fd is StderrMaster || fd is Stdin,
        state.request() matches RequestView::SetAttrs(Fd::Stdin, attrs) ==> (state.stage
            == (Stage::EnterRaw { attrs }) || (state.stage matches Stage::Restore {
            attrs: restored,
            outcome,
        } && restored == attrs)),
{
}

/// The stages in which something is closed.
pub proof fn lemma_closing(state: State)
    ensures
        state.request() == RequestView::Close(Fd::Slave) <==> state.stage is ParentCloseSlave,
        state.request() == RequestView::Close(Fd::StderrSlave) <==> state.stage
            is ParentCloseStderrSlave,
        state.request() == RequestView::Close(Fd::StderrMaster) <==> state.stage
            is ChildCloseStderrMaster,
        state.request() == RequestView::Close(Fd::Master) <==> state.stage is ChildCloseMaster
            || state.stage is CloseMaster,
{
}

} // verus!
