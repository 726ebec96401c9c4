//! The endpoints that the Studio plugin and other servers call.
//!
//! Each handler is a step: it takes what has happened, changes the shared state, and says what
//! is to be done next. Waiting, and talking to the network, is left to the caller.

use crate::channels::{
    joined, reply_channel, send_came_to, send_reply, Reply, ReplyReceiver, ReplySender,
};
use crate::state::{AppState, Board};
use crate::tools::{RunCommandResponse, ToolArguments};
use vstd::prelude::*;

verus! {

/// The time after which a poll that found no command is answered, in seconds.
pub const LONG_POLL_SECONDS: u64 = 15;

/// Why a handler could not do what it was asked to.
#[derive(Debug, PartialEq, Eq)]
pub enum HandlerError {
    /// A report came in on a command that nobody waits for.
    UnknownId,
    /// A command to be proxied had no id.
    MissingId,
    /// The reply can no longer arrive.
    NoResponse,
    /// The caller that waited for this reply is gone; `text` is the error of the channel.
    Undelivered { text: String, reply: Reply },
    /// No change will be announced any more; the text is the error of the channel.
    ChangeLost(String),
}

impl HandlerError {
    /// The text of the error.
    pub open spec fn text(self) -> Seq<char> {
        match self {
            HandlerError::UnknownId => "Unknown ID"@,
            HandlerError::MissingId => "Got proxy command with no id"@,
            HandlerError::NoResponse => "Couldn't receive response"@,
            HandlerError::Undelivered { text, reply } => text@,
            HandlerError::ChangeLost(text) => text@,
        }
    }

    /// The text of the error.
    pub fn message(&self) -> (message: String)
        ensures
            message@ == self.text(),
    {
        match self {
            HandlerError::UnknownId => "Unknown ID".to_string(),
            HandlerError::MissingId => "Got proxy command with no id".to_string(),
            HandlerError::NoResponse => "Couldn't receive response".to_string(),
            HandlerError::Undelivered { text, reply } => text.clone(),
            HandlerError::ChangeLost(text) => text.clone(),
        }
    }
}

/// What happens to a long poll.
#[derive(Debug, PartialEq, Eq)]
pub enum PollEvent {
    /// The poll has come in.
    Started,
    /// A change has been announced, or the wait for one failed with this text.
    Changed(Result<(), String>),
    /// The time of the poll is over.
    TimedOut,
}

/// What is to be done for a long poll.
#[derive(Debug, PartialEq, Eq)]
pub enum PollAction {
    /// Wait until a change is announced.
    AwaitChange,
    /// Answer with this command.
    Send(ToolArguments),
    /// Answer with the status "locked" and an empty body: there is no command.
    Locked,
    /// Answer with this error.
    Fail(HandlerError),
}

/// What a poll does to the shared state, and what is to be done next.
pub open spec fn poll_step(board: Board, event: PollEvent) -> (Board, PollAction) {
    match event {
        PollEvent::TimedOut => (board, PollAction::Locked),
        PollEvent::Changed(Err(text)) => (
            board,
            PollAction::Fail(HandlerError::ChangeLost(text)),
        ),
        _ => if board.queue.len() > 0 {
            (board.dequeued(), PollAction::Send(board.queue[0]))
        } else {
            (board, PollAction::AwaitChange)
        },
    }
}

/// The answer to a poll whose time is over. It does not depend on the shared state.
pub fn expire_poll() -> (action: PollAction)
    ensures
        action == PollAction::Locked,
        forall|board: Board| #[trigger]
            poll_step(board, PollEvent::TimedOut) == (board, action),
{
    PollAction::Locked
}

/// A long poll for a command: the one that was queued first is sent; while there is none, the
/// poll waits for a change until its time is over.
pub fn request_handler(state: &mut AppState, event: PollEvent) -> (action: PollAction)
    requires
        old(state).wf(),
    ensures
        final(state).wf(),
        (final(state)@, action) == poll_step(old(state)@, event),
{
    match event {
        PollEvent::TimedOut => expire_poll(),
        PollEvent::Changed(Err(text)) => PollAction::Fail(HandlerError::ChangeLost(text)),
        _ => match state.next_command() {
            Some(command) => PollAction::Send(command),
            None => PollAction::AwaitChange,
        },
    }
}

/// The caller that waits for a report and the reply that it is to get, if there is such a caller.
pub open spec fn report_acceptance(board: Board, payload: RunCommandResponse) -> Result<
    (ReplySender, Reply),
    HandlerError,
> {
    if board.pending.contains_key(payload.id) {
        Ok((board.pending[payload.id], payload.reply()))
    } else {
        Err(HandlerError::UnknownId)
    }
}

/// Takes the caller that waits for this report, together with the reply that it is to get.
pub fn accept_report(state: &mut AppState, payload: RunCommandResponse) -> (accepted: Result<
    (ReplySender, Reply),
    HandlerError,
>)
    requires
        old(state).wf(),
    ensures
        final(state).wf(),
        final(state)@ == old(state)@.settled(payload.id),
        accepted == report_acceptance(old(state)@, payload),
{
    match state.take_pending(payload.id) {
        Some(tx) => Ok((tx, payload.into_reply())),
        None => Err(HandlerError::UnknownId),
    }
}

/// What the sender of a report is told once its reply has been handed on.
pub open spec fn delivery_result(sent: Result<(), (String, Reply)>) -> Result<(), HandlerError> {
    match sent {
        Ok(()) => Ok(()),
        Err((text, reply)) => Err(HandlerError::Undelivered { text, reply }),
    }
}

/// Tells the sender of a report how the delivery of its reply went.
pub fn conclude_delivery(sent: Result<(), (String, Reply)>) -> (result: Result<(), HandlerError>)
    ensures
        result == delivery_result(sent),
{
    match sent {
        Ok(()) => Ok(()),
        Err((text, reply)) => Err(HandlerError::Undelivered { text, reply }),
    }
}

/// A report from Studio: the reply goes to the caller that waits under the id of the report,
/// which then waits no more. Whether that caller is still there only its channel knows; where it
/// is not, the error holds the reply.
pub fn response_handler(state: &mut AppState, payload: RunCommandResponse) -> (result: Result<
    (),
    HandlerError,
>)
    requires
        old(state).wf(),
    ensures
        final(state).wf(),
        final(state)@ == old(state)@.settled(payload.id),
        !old(state)@.pending.contains_key(payload.id) ==> final(state)@ == old(state)@,
        result == Err::<(), HandlerError>(HandlerError::UnknownId) <==> !old(
            state,
        )@.pending.contains_key(payload.id),
        old(state)@.pending.contains_key(payload.id) ==> exists|sent: Result<(), (String, Reply)>|
            {
                &&& #[trigger] send_came_to(
                    old(state)@.pending[payload.id],
                    payload.reply(),
                    sent,
                )
                &&& result == delivery_result(sent)
            },
        result matches Err(HandlerError::Undelivered { text, reply }) ==> text@
            == "channel closed"@ && reply == payload.reply(),
{
    assert(!old(state)@.pending.contains_key(payload.id) ==> old(state)@.settled(payload.id)
        =~= old(state)@);
    match accept_report(state, payload) {
        Ok((tx, reply)) => conclude_delivery(send_reply(tx, reply)),
        Err(error) => Err(error),
    }
}

/// What happens to a command that another server has passed on.
pub enum ProxyEvent {
    /// The command has come in.
    Requested(ToolArguments),
    /// The reply to command `id` has arrived, or can no longer arrive.
    Received { id: u128, received: Option<Reply> },
}

/// What is to be done for a command that another server has passed on.
pub enum ProxyAction {
    /// Wait for the reply to command `id`.
    AwaitReply { id: u128, replies: ReplyReceiver },
    /// Answer with this report.
    Respond(RunCommandResponse),
    /// Answer with this error.
    Fail(HandlerError),
}

/// A command that another server passes on: it is queued under the id that it came with, and the
/// reply is reported back. The pollers are not told of it.
pub fn proxy_handler(state: &mut AppState, event: ProxyEvent) -> (action: ProxyAction)
    requires
        old(state).wf(),
    ensures
        final(state).wf(),
        match event {
            ProxyEvent::Requested(command) => match command.id {
                Some(id) => {
                    &&& final(state)@ == old(state)@.enqueued(
                        command,
                        id,
                        final(state)@.pending[id],
                    )
                    &&& action matches ProxyAction::AwaitReply { id: awaited, replies }
                    &&& awaited == id
                    &&& joined(final(state)@.pending[id], replies)
                },
                None => {
                    &&& final(state)@ == old(state)@
                    &&& action == ProxyAction::Fail(HandlerError::MissingId)
                },
            },
            ProxyEvent::Received { id, received: Some(reply) } => {
                &&& final(state)@ == old(state)@.settled(id)
                &&& action == ProxyAction::Respond(RunCommandResponse::of_reply(id, reply))
            },
            ProxyEvent::Received { id, received: None } => {
                &&& final(state)@ == old(state)@
                &&& action == ProxyAction::Fail(HandlerError::NoResponse)
            },
        },
{
    match event {
        ProxyEvent::Requested(command) => match command.id {
            Some(id) => {
                let (tx, replies) = reply_channel();
                state.enqueue(command, id, tx);
                ProxyAction::AwaitReply { id, replies }
            },
            None => ProxyAction::Fail(HandlerError::MissingId),
        },
        ProxyEvent::Received { id, received: Some(reply) } => {
            let _ = state.take_pending(id);
            ProxyAction::Respond(RunCommandResponse::from_reply(id, reply))
        },
        ProxyEvent::Received { id, received: None } => ProxyAction::Fail(HandlerError::NoResponse),
    }
}

} // verus!
