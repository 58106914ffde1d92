//! Runs of the supervisor and what crosses its boundary during a run.
//!
//! A run starts in some state and takes one reply after the other. What
//! the supervisor wrote, what it read, what it did to the controlling
//! terminal and how the child ended are all read off the requests that
//! were pending and the replies that answered them.

use crate::attrs::TermAttrs;
use crate::model::{dest, Stage, State};
use crate::protocol::{Fd, ReplyView, RequestView};
use crate::status::ChildStatus;
use vstd::prelude::*;

verus! {

/// The state reached from `start` after the pending requests were answered
/// by `replies`, one after the other.
pub open spec fn run(start: State, replies: Seq<ReplyView>) -> State
    decreases replies.len(),
{
    if replies.len() == 0 {
        start
    } else {
        run(start, replies.drop_last()).step(replies.last())
    }
}

/// The bytes that `reply` brings in from `fd`, given that it answers the
/// request pending in `state`.
pub open spec fn read_from(state: State, reply: ReplyView, fd: Fd) -> Seq<u8> {
    match reply {
        ReplyView::Data(data) => if state.request() == RequestView::Read(fd) {
            data
        } else {
            Seq::empty()
        },
        _ => Seq::empty(),
    }
}

/// The bytes that `reply` confirms as written to `fd`, given that it
/// answers the request pending in `state`.
pub open spec fn written_to(state: State, reply: ReplyView, fd: Fd) -> Seq<u8> {
    match (state.request(), reply) {
        (RequestView::Write(to, data), ReplyView::Written(n)) => if to != fd {
            Seq::empty()
        } else if n >= data.len() {
            data
        } else {
            data.take(n as int)
        },
        _ => Seq::empty(),
    }
}

/// The bytes of a chunk read from `source` that `reply` confirms as
/// written to where they belong.
pub open spec fn relayed_from(state: State, reply: ReplyView, source: Fd) -> Seq<u8> {
    if state.stage == (Stage::Send { source }) {
        written_to(state, reply, dest(source))
    } else {
        Seq::empty()
    }
}

/// The bytes of a chunk read from `source` that `reply` confirms as
/// written to the log.
pub open spec fn logged_from(state: State, reply: ReplyView, source: Fd) -> Seq<u8> {
    if state.stage == (Stage::Log { source }) && reply is Done {
        state.chunk
    } else {
        Seq::empty()
    }
}

/// The bytes that `reply` confirms as written to the log, given that it
/// answers the request pending in `state`.
pub open spec fn log_written(state: State, reply: ReplyView) -> Seq<u8> {
    match (state.request(), reply) {
        (RequestView::LogWrite(data), ReplyView::Done) => data,
        _ => Seq::empty(),
    }
}

/// The output of the child that `reply` brings in, from either PTY.
pub open spec fn produced(state: State, reply: ReplyView) -> Seq<u8> {
    read_from(state, reply, Fd::StderrMaster) + read_from(state, reply, Fd::Master)
}

/// The input that `reply` brings in for the child: a chunk read from
/// standard input or from the input file, or the end-of-file character
/// once the primary PTY took it.
pub open spec fn taken(state: State, reply: ReplyView) -> Seq<u8> {
    if state.stage is EofSend {
        written_to(state, reply, Fd::Master)
    } else {
        read_from(state, reply, Fd::Stdin) + read_from(state, reply, Fd::InFile)
    }
}

/// What `what` yields along a run, step by step, put together in order.
pub open spec fn gathered(
    start: State,
    replies: Seq<ReplyView>,
    what: spec_fn(State, ReplyView) -> Seq<u8>,
) -> Seq<u8>
    decreases replies.len(),
{
    if replies.len() == 0 {
        Seq::empty()
    } else {
        gathered(start, replies.drop_last(), what) + what(
            run(start, replies.drop_last()),
            replies.last(),
        )
    }
}

/// All bytes read from `fd` during a run.
pub open spec fn bytes_read(start: State, replies: Seq<ReplyView>, fd: Fd) -> Seq<u8> {
    gathered(start, replies, |s: State, r: ReplyView| read_from(s, r, fd))
}

/// All bytes written to `fd` during a run.
pub open spec fn bytes_written(start: State, replies: Seq<ReplyView>, fd: Fd) -> Seq<u8> {
    gathered(start, replies, |s: State, r: ReplyView| written_to(s, r, fd))
}

/// All bytes read from `source` that were written to where they belong
/// during a run.
pub open spec fn bytes_relayed(start: State, replies: Seq<ReplyView>, source: Fd) -> Seq<u8> {
    gathered(start, replies, |s: State, r: ReplyView| relayed_from(s, r, source))
}

/// All bytes read from `source` that were written to the log during a run.
pub open spec fn bytes_logged(start: State, replies: Seq<ReplyView>, source: Fd) -> Seq<u8> {
    gathered(start, replies, |s: State, r: ReplyView| logged_from(s, r, source))
}

/// All bytes written to the log during a run.
pub open spec fn bytes_to_log(start: State, replies: Seq<ReplyView>) -> Seq<u8> {
    gathered(start, replies, |s: State, r: ReplyView| log_written(s, r))
}

/// All output of the child that came in during a run, from either PTY, in
/// the order it came.
pub open spec fn bytes_produced(start: State, replies: Seq<ReplyView>) -> Seq<u8> {
    gathered(start, replies, |s: State, r: ReplyView| produced(s, r))
}

/// All input for the child that came in during a run, in the order it came.
pub open spec fn bytes_taken(start: State, replies: Seq<ReplyView>) -> Seq<u8> {
    gathered(start, replies, |s: State, r: ReplyView| taken(s, r))
}

/// Whether `fd` is one of the four descriptors the supervisor reads from.
pub open spec fn is_source(fd: Fd) -> bool {
    fd is Stdin || fd is InFile || fd is StderrMaster || fd is Master
}

/// The bytes read from `source` that are still to be written to where
/// they belong.
pub open spec fn unsent(state: State, source: Fd) -> Seq<u8> {
    if state.stage == (Stage::Log { source }) || state.stage == (Stage::Flush { source })
        || state.stage == (Stage::Send { source }) {
        state.chunk
    } else {
        Seq::empty()
    }
}

/// The bytes read from `source` that are still to be written to the log.
pub open spec fn unlogged(state: State, source: Fd) -> Seq<u8> {
    if state.stage == (Stage::Log { source }) {
        state.chunk
    } else {
        Seq::empty()
    }
}

/// The output of the child that is still to be written to the log.
pub open spec fn unlogged_output(state: State) -> Seq<u8> {
    unlogged(state, Fd::StderrMaster) + unlogged(state, Fd::Master)
}

/// The input for the child that is still to be written to the primary PTY.
pub open spec fn unsent_input(state: State) -> Seq<u8> {
    unsent(state, Fd::Stdin) + unsent(state, Fd::InFile)
}

/// Whether the run has failed: it is on its way out with an error.
pub open spec fn failed(state: State) -> bool {
    match state.stage {
        Stage::Reap { error } => true,
        Stage::CloseMaster { outcome } => outcome is Err,
        Stage::Restore { attrs, outcome } => outcome is Err,
        Stage::Finished { outcome } => outcome is Err,
        _ => false,
    }
}

/// The attributes of the controlling terminal once the request pending in
/// `state` was carried out, where they were `current` before.
pub open spec fn installed(state: State, current: TermAttrs) -> TermAttrs {
    match state.request() {
        RequestView::SetAttrs(Fd::Stdin, attrs) => attrs,
        _ => current,
    }
}

/// The attributes of the controlling terminal after a run, where they were
/// `found` before it.
pub open spec fn terminal(start: State, replies: Seq<ReplyView>, found: TermAttrs) -> TermAttrs
    decreases replies.len(),
{
    if replies.len() == 0 {
        found
    } else {
        installed(
            run(start, replies.drop_last()),
            terminal(start, replies.drop_last(), found),
        )
    }
}

/// Whether the first reply, if it tells the attributes of the controlling
/// terminal, tells them as they are.
pub open spec fn truthful(replies: Seq<ReplyView>, found: TermAttrs) -> bool {
    replies.len() > 0 ==> (replies[0] matches ReplyView::Attrs(attrs) ==> attrs == found)
}

/// How the child ended according to `reply`, if `reply` answers the wait
/// for it; `known` otherwise.
pub open spec fn waited(state: State, reply: ReplyView, known: Option<ChildStatus>) -> Option<
    ChildStatus,
> {
    match reply {
        ReplyView::Status(status) => if state.stage is Wait {
            Some(status)
        } else {
            known
        },
        _ => known,
    }
}

/// How the child ended, if the run has waited for it.
pub open spec fn reaped(start: State, replies: Seq<ReplyView>) -> Option<ChildStatus>
    decreases replies.len(),
{
    if replies.len() == 0 {
        None
    } else {
        waited(
            run(start, replies.drop_last()),
            replies.last(),
            reaped(start, replies.drop_last()),
        )
    }
}

/// Whether the child was waited for once the request pending in `state`
/// has been answered, given whether it was before.
pub open spec fn awaited(state: State, before: bool) -> bool {
    before || state.request() is Wait
}

/// Whether the run has waited for the child: a wait was asked for and
/// answered.
pub open spec fn child_awaited(start: State, replies: Seq<ReplyView>) -> bool
    decreases replies.len(),
{
    if replies.len() == 0 {
        false
    } else {
        awaited(run(start, replies.drop_last()), child_awaited(start, replies.drop_last()))
    }
}

/// The two sides of a fork.
pub enum Side {
    Parent,
    Child,
}

/// The side of the fork that the run is on according to `reply`, if
/// `reply` answers the fork; `known` otherwise.
pub open spec fn forked(state: State, reply: ReplyView, known: Option<Side>) -> Option<Side> {
    if state.stage is Fork {
        match reply {
            ReplyView::Parent => Some(Side::Parent),
            ReplyView::Child => Some(Side::Child),
            _ => known,
        }
    } else {
        known
    }
}

/// The side of the fork that a run is on, once it has forked.
pub open spec fn side(start: State, replies: Seq<ReplyView>) -> Option<Side>
    decreases replies.len(),
{
    if replies.len() == 0 {
        None
    } else {
        forked(run(start, replies.drop_last()), replies.last(), side(start, replies.drop_last()))
    }
}

/// The exit code the run is going to end with, once that is settled.
pub open spec fn verdict(state: State) -> Option<i32> {
    match state.stage {
        Stage::CloseMaster { outcome: Ok(code) } => Some(code),
        Stage::Restore { attrs, outcome: Ok(code) } => Some(code),
        Stage::Finished { outcome: Ok(code) } => Some(code),
        _ => None,
    }
}

} // verus!
