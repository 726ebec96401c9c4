//! The loop of a server that found the port of the plugin taken: it passes its commands on to
//! the server that has the port.

use crate::channels::{send_came_to, send_reply, Reply, ReplySender};
use crate::state::{AppState, Board};
use crate::tools::{RunCommandResponse, ToolArguments};
use crate::STUDIO_PLUGIN_PORT;
use vstd::prelude::*;
use vstd::string::StringExecFns;

verus! {

/// The decimal digit `d`.
pub open spec fn digit(d: nat) -> char {
    ('0' as nat + d) as char
}

/// The number `n` in decimal, without leading zeros.
pub open spec fn decimal(n: nat) -> Seq<char>
    decreases n,
{
    if n < 10 {
        seq![digit(n)]
    } else {
        decimal(n / 10).push(digit(n % 10))
    }
}

fn digit_text(d: u16) -> (text: &'static str)
    requires
        d < 10,
    ensures
        text@ == seq![digit(d as nat)],
{
    proof {
        reveal_strlit("0");
        reveal_strlit("1");
        reveal_strlit("2");
        reveal_strlit("3");
        reveal_strlit("4");
        reveal_strlit("5");
        reveal_strlit("6");
        reveal_strlit("7");
        reveal_strlit("8");
        reveal_strlit("9");
    }
    match d {
        0 => "0",
        1 => "1",
        2 => "2",
        3 => "3",
        4 => "4",
        5 => "5",
        6 => "6",
        7 => "7",
        8 => "8",
        _ => "9",
    }
}

fn decimal_text(n: u16) -> (text: String)
    ensures
        text@ == decimal(n as nat),
    decreases n,
{
    if n < 10 {
        digit_text(n).to_string()
    } else {
        let text = decimal_text(n / 10).concat(digit_text(n % 10));
        assert(text@ =~= decimal(n as nat));
        text
    }
}

/// The address to which the loop posts its commands.
pub fn proxy_url() -> (url: String)
    ensures
        url@ == "http://127.0.0.1:"@ + decimal(STUDIO_PLUGIN_PORT as nat) + "/proxy"@,
        url@ == "http://127.0.0.1:44755/proxy"@,
{
    proof {
        reveal_with_fuel(decimal, 5);
        reveal_strlit("http://127.0.0.1:");
        reveal_strlit("/proxy");
        reveal_strlit("http://127.0.0.1:44755/proxy");
        assert(decimal(44755) =~= seq!['4', '4', '7', '5', '5']);
        assert("http://127.0.0.1:"@ + decimal(44755) + "/proxy"@
            =~= "http://127.0.0.1:44755/proxy"@);
    }
    let port = decimal_text(STUDIO_PLUGIN_PORT);
    "http://127.0.0.1:".to_string().concat(port.as_str()).concat("/proxy")
}

/// What happens to the loop.
pub enum DudEvent {
    /// The loop has looked whether it is to end.
    ExitChecked { running: bool },
    /// The post of the command with this id was answered, or failed.
    Posted { id: Option<u128>, answered: bool },
    /// The answer to a post has been read, or could not be read for the reason in the text; `tx`
    /// is the caller that waits for it.
    ReplyRead { tx: ReplySender, read: Result<RunCommandResponse, String> },
    /// The wait for a change is over; `open` says whether another change can come.
    Changed { open: bool },
}

/// Why the loop cannot go on.
pub enum DudFailure {
    /// A command without an id was answered.
    MissingId,
    /// A command was answered that nobody waits for.
    NotPending,
    /// The caller that waited for this reply is gone.
    Undelivered(Reply),
    /// No change will be announced any more.
    ChangeLost,
}

/// What the loop does next.
pub enum DudAction {
    /// Look whether the loop is to end.
    CheckExit,
    /// Post this command to the server that has the port.
    Forward(ToolArguments),
    /// Read the answer to the post, for the caller behind this sender.
    ReadReply(ReplySender),
    /// Wait until a change is announced.
    AwaitChange,
    /// End the loop.
    Stop,
    /// Panic.
    Abort(DudFailure),
}

/// What a caller is told of an answer: its text. That the command failed is not passed on.
pub open spec fn relayed_reply(read: Result<RunCommandResponse, String>) -> Reply {
    match read {
        Ok(report) => Ok(report.response),
        Err(text) => Err(text),
    }
}

/// What becomes of the state, and what the loop does next. After a delivery it goes on as said
/// here only if the reply was received; see [`relay_result`].
pub open spec fn dud_step(board: Board, event: DudEvent) -> (Board, DudAction) {
    match event {
        DudEvent::ExitChecked { running } => if !running {
            (board, DudAction::Stop)
        } else if board.queue.len() > 0 {
            (board.dequeued(), DudAction::Forward(board.queue[0]))
        } else {
            (board, DudAction::AwaitChange)
        },
        DudEvent::Posted { id, answered } => if !answered {
            (board, DudAction::CheckExit)
        } else {
            match id {
                Some(id) => if board.pending.contains_key(id) {
                    (board.settled(id), DudAction::ReadReply(board.pending[id]))
                } else {
                    (board, DudAction::Abort(DudFailure::NotPending))
                },
                None => (board, DudAction::Abort(DudFailure::MissingId)),
            }
        },
        DudEvent::Changed { open } => if open {
            (board, DudAction::CheckExit)
        } else {
            (board, DudAction::Abort(DudFailure::ChangeLost))
        },
        DudEvent::ReplyRead { tx, read } => (board, DudAction::CheckExit),
    }
}

/// Turns an answer into the reply that the waiting caller gets.
pub fn relay(read: Result<RunCommandResponse, String>) -> (reply: Reply)
    ensures
        reply == relayed_reply(read),
{
    match read {
        Ok(report) => Ok(report.response),
        Err(text) => Err(text),
    }
}

/// What the loop does once the attempt to hand a reply on came to `sent`.
pub open spec fn relay_result(sent: Result<(), (String, Reply)>) -> DudAction {
    match sent {
        Ok(()) => DudAction::CheckExit,
        Err((text, reply)) => DudAction::Abort(DudFailure::Undelivered(reply)),
    }
}

/// What the loop does once a reply has been handed on.
pub fn conclude_relay(sent: Result<(), (String, Reply)>) -> (action: DudAction)
    ensures
        action == relay_result(sent),
{
    match sent {
        Ok(()) => DudAction::CheckExit,
        Err((text, reply)) => DudAction::Abort(DudFailure::Undelivered(reply)),
    }
}

/// One step of the loop: commands are passed on one after the other, and each answer goes to the
/// caller that waits for it. A command whose post failed is dropped, and its caller goes on
/// waiting. Where the step ends in the delivery of a reply, only the channel knows whether
/// somebody receives it.
pub fn dud_proxy_loop(state: &mut AppState, event: DudEvent) -> (action: DudAction)
    requires
        old(state).wf(),
    ensures
        final(state).wf(),
        final(state)@ == dud_step(old(state)@, event).0,
        match event {
            DudEvent::ReplyRead { tx, read } => {
                &&& exists|sent: Result<(), (String, Reply)>|
                    #[trigger] send_came_to(tx, relayed_reply(read), sent) && action
                        == relay_result(sent)
                &&& action == DudAction::CheckExit || action == DudAction::Abort(
                    DudFailure::Undelivered(relayed_reply(read)),
                )
            },
            _ => action == dud_step(old(state)@, event).1,
        },
{
    match event {
        DudEvent::ExitChecked { running } => if running {
            match state.next_command() {
                Some(command) => DudAction::Forward(command),
                None => DudAction::AwaitChange,
            }
        } else {
            DudAction::Stop
        },
        DudEvent::Posted { id, answered } => if answered {
            match id {
                Some(id) => match state.take_pending(id) {
                    Some(tx) => DudAction::ReadReply(tx),
                    None => {
                        assert(old(state)@.settled(id) =~= old(state)@);
                        DudAction::Abort(DudFailure::NotPending)
                    },
                },
                None => DudAction::Abort(DudFailure::MissingId),
            }
        } else {
            DudAction::CheckExit
        },
        DudEvent::ReplyRead { tx, read } => conclude_relay(send_reply(tx, relay(read))),
        DudEvent::Changed { open } => if open {
            DudAction::CheckExit
        } else {
            DudAction::Abort(DudFailure::ChangeLost)
        },
    }
}

} // verus!
