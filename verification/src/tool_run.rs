//! The run of a tool inside Studio, as seen by the client that calls it.
//!
//! A run has three steps: [`submit_tool_run`] queues the command, [`announce_tool_run`] tells the
//! pollers of it, and, once the reply is there, [`finish_tool_run`] turns it into the result of
//! the call.

use crate::channels::{
    announcement_came_to, joined, reply_channel, send_change, watching, Reply, ReplyReceiver, Trigger, Waiter,
};
use crate::ids::is_random_uuid;
use crate::mcp::{ErrorKind, ToolError, ToolOutcome, ToolReply};
use crate::state::AppState;
use crate::tools::{ToolArgumentValues, ToolArguments};
use vstd::prelude::*;
use vstd::string::StringExecFns;

verus! {

/// A queued command: the id and the channel under which its reply arrives, and the sender on
/// which it is to be announced.
pub struct Submission {
    pub id: u128,
    pub replies: ReplyReceiver,
    pub trigger: Trigger,
}

/// Queues the command of a tool call under a fresh random id.
pub fn submit_tool_run(state: &mut AppState, args: ToolArgumentValues) -> (submission: Submission)
    requires
        old(state).wf(),
    ensures
        final(state).wf(),
        is_random_uuid(submission.id),
        final(state)@ == old(state)@.enqueued(
            ToolArguments { args, id: Some(submission.id) },
            submission.id,
            final(state)@.pending[submission.id],
        ),
        joined(final(state)@.pending[submission.id], submission.replies),
        watching(old(state)@.waiter, submission.trigger),
        forall|waiter: Waiter|
            watching(waiter, submission.trigger) == watching(waiter, old(state)@.trigger),
{
    let (command, id) = ToolArguments::new(args);
    let (tx, replies) = reply_channel();
    state.enqueue(command, id, tx);
    Submission { id, replies, trigger: state.announcer() }
}

/// Whether `result` is what the call fails with, if at all, where the announcement came to `sent`.
pub open spec fn announcement_concluded(
    sent: Result<(), String>,
    result: Result<(), ToolError>,
) -> bool {
    match sent {
        Ok(()) => result is Ok,
        Err(text) => {
            &&& result matches Err(ToolError { kind: ErrorKind::Internal, message })
            &&& message@ == "Unable to trigger send "@ + text@
        },
    }
}

/// What comes of an announcement.
pub fn conclude_announcement(sent: Result<(), String>) -> (result: Result<(), ToolError>)
    ensures
        announcement_concluded(sent, result),
{
    match sent {
        Ok(()) => Ok(()),
        Err(text) => Err(
            ToolError {
                kind: ErrorKind::Internal,
                message: "Unable to trigger send ".to_string().concat(text.as_str()),
            },
        ),
    }
}

/// Tells the pollers that a command has been queued. Whether there is anyone to tell only the
/// channel knows.
pub fn announce_tool_run(trigger: Trigger) -> (result: Result<(), ToolError>)
    ensures
        exists|sent: Result<(), String>|
            #[trigger] announcement_came_to(trigger, sent) && announcement_concluded(sent, result),
        result matches Err(error) ==> {
            &&& error.kind == ErrorKind::Internal
            &&& error.message@ == "Unable to trigger send "@ + "channel closed"@
        },
{
    conclude_announcement(send_change(trigger))
}

/// The result of a tool call, from the reply to its command.
pub open spec fn outcome_of_reply(reply: Reply) -> ToolReply {
    match reply {
        Ok(text) => ToolReply::Text { text, is_error: false },
        Err(text) => ToolReply::Text { text, is_error: true },
    }
}

/// Ends the run of a tool: the reply becomes its result, and nobody waits under its id any more.
/// Where no reply can arrive, the call fails and the state is left alone.
pub fn finish_tool_run(state: &mut AppState, id: u128, received: Option<Reply>) -> (outcome:
    ToolOutcome)
    requires
        old(state).wf(),
    ensures
        final(state).wf(),
        match received {
            Some(reply) => {
                &&& final(state)@ == old(state)@.settled(id)
                &&& outcome == Ok::<ToolReply, ToolError>(outcome_of_reply(reply))
            },
            None => {
                &&& final(state)@ == old(state)@
                &&& outcome matches Err(ToolError { kind: ErrorKind::Internal, message })
                &&& message@ == "Couldn't receive response"@
            },
        },
{
    match received {
        Some(reply) => {
            let _ = state.take_pending(id);
            match reply {
                Ok(text) => Ok(ToolReply::Text { text, is_error: false }),
                Err(text) => Ok(ToolReply::Text { text, is_error: true }),
            }
        },
        None => Err(
            ToolError {
                kind: ErrorKind::Internal,
                message: "Couldn't receive response".to_string(),
            },
        ),
    }
}

} // verus!
