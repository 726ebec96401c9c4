//! The channels of `tokio` that the server state holds.
//!
//! Each caller that waits for an answer from Studio owns the receiving half of an unbounded
//! channel; the server state keeps the sending half under the id of the command. A watch
//! channel tells the pollers that a command has been queued.

use vstd::prelude::*;

verus! {

/// What Studio makes of a command: its output, or the text of an error.
pub type Reply = Result<String, String>;

/// The sending half of an unbounded channel.
#[verifier::external_type_specification]
#[verifier::external_body]
#[verifier::reject_recursive_types(T)]
pub struct ExUnboundedSender<T>(tokio::sync::mpsc::UnboundedSender<T>);

/// The receiving half of an unbounded channel.
#[verifier::external_type_specification]
#[verifier::external_body]
#[verifier::reject_recursive_types(T)]
pub struct ExUnboundedReceiver<T>(tokio::sync::mpsc::UnboundedReceiver<T>);

/// The sending half of a watch channel.
#[verifier::external_type_specification]
#[verifier::external_body]
#[verifier::reject_recursive_types(T)]
pub struct ExWatchSender<T>(tokio::sync::watch::Sender<T>);

/// The receiving half of a watch channel.
#[verifier::external_type_specification]
#[verifier::external_body]
#[verifier::reject_recursive_types(T)]
pub struct ExWatchReceiver<T>(tokio::sync::watch::Receiver<T>);

pub type ReplySender = tokio::sync::mpsc::UnboundedSender<Reply>;

pub type ReplyReceiver = tokio::sync::mpsc::UnboundedReceiver<Reply>;

pub type Trigger = tokio::sync::watch::Sender<()>;

pub type Waiter = tokio::sync::watch::Receiver<()>;

/// Whether what is sent on `tx` arrives at `rx`: the two are halves of one channel.
pub uninterp spec fn joined(tx: ReplySender, rx: ReplyReceiver) -> bool;

/// Whether a change announced on `trigger` is seen by `waiter`: the two are halves of one
/// watch channel.
pub uninterp spec fn watching(waiter: Waiter, trigger: Trigger) -> bool;

/// Whether `sent` is what an attempt to send `reply` on `tx` came to. This is no function of `tx`
/// and `reply`: another attempt may come to something else.
pub uninterp spec fn send_came_to(
    tx: ReplySender,
    reply: Reply,
    sent: Result<(), (String, Reply)>,
) -> bool;

/// Whether `sent` is what an attempt to announce a change on `trigger` came to. This is no
/// function of `trigger`: another attempt may come to something else.
pub uninterp spec fn announcement_came_to(trigger: Trigger, sent: Result<(), String>) -> bool;

/// `tokio::sync::mpsc::unbounded_channel`: makes a new channel and returns both its halves.
#[verifier::external_body]
pub(crate) fn reply_channel() -> (halves: (ReplySender, ReplyReceiver))
    ensures
        joined(halves.0, halves.1),
{
    tokio::sync::mpsc::unbounded_channel()
}

/// `UnboundedSender::send`: fails where the receiving half is closed, which only the channel
/// knows. The error then gives the message back, and its text is "channel closed". The sender is
/// given up, so that nothing else is sent on it.
#[verifier::external_body]
pub(crate) fn send_reply(tx: ReplySender, reply: Reply) -> (sent: Result<(), (String, Reply)>)
    ensures
        send_came_to(tx, reply, sent),
        sent matches Err((text, unsent)) ==> text@ == "channel closed"@ && unsent == reply,
{
    match tx.send(reply) {
        Ok(()) => Ok(()),
        Err(error) => Err((error.to_string(), error.0)),
    }
}

/// `tokio::sync::watch::channel`: makes a new watch channel and returns both its halves.
#[verifier::external_body]
pub(crate) fn change_channel() -> (halves: (Trigger, Waiter))
    ensures
        watching(halves.1, halves.0),
{
    tokio::sync::watch::channel(())
}

/// `watch::Sender::clone`: another sending half of the same channel.
#[verifier::external_body]
pub(crate) fn clone_trigger(trigger: &Trigger) -> (other: Trigger)
    ensures
        forall|waiter: Waiter| watching(waiter, other) == watching(waiter, *trigger),
{
    trigger.clone()
}

/// `watch::Receiver::clone`: another receiving half of the same channel.
#[verifier::external_body]
pub(crate) fn clone_waiter(waiter: &Waiter) -> (other: Waiter)
    ensures
        forall|trigger: Trigger| watching(other, trigger) == watching(*waiter, trigger),
{
    waiter.clone()
}

/// `watch::Sender::send`: fails where no receiving half is left, which only the channel knows.
/// The text of the error is "channel closed". The sender is given up, so that nothing else is
/// announced on it.
#[verifier::external_body]
pub(crate) fn send_change(trigger: Trigger) -> (sent: Result<(), String>)
    ensures
        announcement_came_to(trigger, sent),
        sent matches Err(text) ==> text@ == "channel closed"@,
{
    match trigger.send(()) {
        Ok(()) => Ok(()),
        Err(error) => Err(error.to_string()),
    }
}

} // verus!
