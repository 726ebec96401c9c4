//! What holds of the server as a whole.
//!
//! The laws speak of the contents of the shared state, on which every handler's contract is
//! stated. A history is any sequence of the changes that the handlers make.

use crate::channels::{watching, Reply, ReplySender, Trigger, Waiter};
use crate::dud_proxy::{
    dud_step, relay_result, relayed_reply, DudAction, DudEvent, DudFailure,
};
use crate::handlers::{
    delivery_result, poll_step, report_acceptance, HandlerError, PollAction, PollEvent,
};
use crate::mcp::{
    failure_with_text, protocol_form, success_with_text, ErrorKind, ToolError, ToolReply,
};
use crate::state::Board;
use crate::tool_run::{announcement_concluded, outcome_of_reply};
use crate::tools::{RunCommandResponse, ToolArguments};
use vstd::prelude::*;

verus! {

/// A change that a handler makes to the shared state.
pub enum Change {
    /// A command is queued under `id`, for which `tx` waits.
    Enqueue { command: ToolArguments, id: u128, tx: ReplySender },
    /// The first command, if there is one, leaves the queue.
    Dequeue,
    /// Nobody waits under `id` any more.
    Settle { id: u128 },
}

/// The state after one change.
pub open spec fn changed(board: Board, change: Change) -> Board {
    match change {
        Change::Enqueue { command, id, tx } => board.enqueued(command, id, tx),
        Change::Dequeue => if board.queue.len() > 0 {
            board.dequeued()
        } else {
            board
        },
        Change::Settle { id } => board.settled(id),
    }
}

/// The state after a history of changes.
pub open spec fn replayed(board: Board, history: Seq<Change>) -> Board
    decreases history.len(),
{
    if history.len() == 0 {
        board
    } else {
        changed(replayed(board, history.drop_last()), history.last())
    }
}

/// Whether a change registers a caller under `id`.
pub open spec fn registers(change: Change, id: u128) -> bool {
    change matches Change::Enqueue { id: other, .. } && other == id
}

/// Whether a change ends the wait under `id`.
pub open spec fn settles(change: Change, id: u128) -> bool {
    change matches Change::Settle { id: other } && other == id
}

/// The command that a change takes off the queue, if it takes one.
pub open spec fn taken_by(board: Board, change: Change) -> Seq<ToolArguments> {
    if change is Dequeue && board.queue.len() > 0 {
        seq![board.queue[0]]
    } else {
        seq![]
    }
}

/// The command that a change puts into the queue, if it puts one.
pub open spec fn added_by(change: Change) -> Seq<ToolArguments> {
    match change {
        Change::Enqueue { command, id, tx } => seq![command],
        _ => seq![],
    }
}

/// The commands that a history takes off the queue, in the order in which they are taken.
pub open spec fn taken(board: Board, history: Seq<Change>) -> Seq<ToolArguments>
    decreases history.len(),
{
    if history.len() == 0 {
        seq![]
    } else {
        taken(board, history.drop_last()) + taken_by(
            replayed(board, history.drop_last()),
            history.last(),
        )
    }
}

/// The commands that a history puts into the queue, in the order in which they are put there.
pub open spec fn added(history: Seq<Change>) -> Seq<ToolArguments>
    decreases history.len(),
{
    if history.len() == 0 {
        seq![]
    } else {
        added(history.drop_last()) + added_by(history.last())
    }
}

/// First in, first out, whatever happens: the commands taken, followed by those still queued,
/// are the commands queued at first, followed by those added, in this order. None is lost, none
/// is taken twice, and none overtakes another.
pub proof fn commands_leave_in_the_order_of_their_coming(board: Board, history: Seq<Change>)
    ensures
        taken(board, history) + replayed(board, history).queue == board.queue + added(history),
    decreases history.len(),
{
    if history.len() > 0 {
        let earlier = history.drop_last();
        let before = replayed(board, earlier);
        commands_leave_in_the_order_of_their_coming(board, earlier);
        let step = taken_by(before, history.last());
        let after = replayed(board, history);
        assert(step + after.queue =~= before.queue + added_by(history.last()));
        assert(taken(board, history) + after.queue =~= taken(board, earlier) + (step
            + after.queue));
        assert((taken(board, earlier) + before.queue) + added_by(history.last()) =~= taken(
            board,
            earlier,
        ) + (before.queue + added_by(history.last())));
        assert(board.queue + added(history) =~= (board.queue + added(earlier)) + added_by(
            history.last(),
        ));
    } else {
        assert(taken(board, history) + board.queue =~= board.queue + added(history));
    }
}

/// Polls, and the loop of a server without the port, change the state only in these ways, and
/// the command that they send or pass on is the one that the change takes off the queue.
pub proof fn every_step_is_a_change(board: Board, poll: PollEvent, dud: DudEvent)
    ensures
        poll_step(board, poll).1 matches PollAction::Send(command) ==> {
            &&& poll_step(board, poll).0 == changed(board, Change::Dequeue)
            &&& taken_by(board, Change::Dequeue) == seq![command]
        },
        dud_step(board, dud).1 matches DudAction::Forward(command) ==> {
            &&& dud_step(board, dud).0 == changed(board, Change::Dequeue)
            &&& taken_by(board, Change::Dequeue) == seq![command]
        },
        poll_step(board, poll).0 == board || poll_step(board, poll).0 == changed(
            board,
            Change::Dequeue,
        ),
        dud_step(board, dud).0 == board || dud_step(board, dud).0 == changed(board, Change::Dequeue)
            || exists|id: u128|
            dud_step(board, dud).0 == #[trigger] changed(board, Change::Settle { id }),
{
    if let DudEvent::Posted { id: Some(id), answered } = dud {
        assert(changed(board, Change::Settle { id }) == board.settled(id));
    }
}

/// Every state that the handlers lead to from a valid one is valid.
pub proof fn every_state_is_valid(board: Board, history: Seq<Change>)
    requires
        board.valid(),
        forall|i: int|
            0 <= i < history.len() ==> ((#[trigger] history[i]) matches Change::Enqueue {
                command,
                id,
                tx,
            } ==> command.id == Some(id)),
    ensures
        replayed(board, history).valid(),
        replayed(board, history).waiter == board.waiter,
        replayed(board, history).trigger == board.trigger,
    decreases history.len(),
{
    if history.len() > 0 {
        let earlier = history.drop_last();
        assert forall|i: int| 0 <= i < earlier.len() implies ((#[trigger] earlier[i]) matches
            Change::Enqueue { command, id, tx } ==> command.id == Some(id)) by {
            assert(earlier[i] == history[i]);
        }
        every_state_is_valid(board, earlier);
        assert(history.last() == history[history.len() - 1]);
    }
}

/// Whatever else happens meanwhile, the caller that was registered with a command is the one
/// that the reply under its id finds.
pub proof fn reply_finds_its_caller(
    board: Board,
    command: ToolArguments,
    id: u128,
    tx: ReplySender,
    history: Seq<Change>,
)
    requires
        forall|i: int|
            0 <= i < history.len() ==> !registers(#[trigger] history[i], id) && !settles(
                history[i],
                id,
            ),
    ensures
        replayed(board.enqueued(command, id, tx), history).pending.contains_key(id),
        replayed(board.enqueued(command, id, tx), history).pending[id] == tx,
    decreases history.len(),
{
    if history.len() > 0 {
        let earlier = history.drop_last();
        assert forall|i: int| 0 <= i < earlier.len() implies !registers(#[trigger] earlier[i], id)
            && !settles(earlier[i], id) by {
            assert(earlier[i] == history[i]);
        }
        reply_finds_its_caller(board, command, id, tx, earlier);
        assert(history.last() == history[history.len() - 1]);
    }
}

/// A tool call is answered with what Studio reports on its command: once the commands before it
/// are fetched, a poll is sent the command together with its id, also where others are queued
/// meanwhile; and whatever else happens until Studio reports under that id, the report is accepted
/// for the caller of the tool, who sees its text, marked as an error exactly if the command failed.
pub proof fn call_is_answered_with_its_report(
    board: Board,
    command: ToolArguments,
    id: u128,
    tx: ReplySender,
    history: Seq<Change>,
    report: RunCommandResponse,
)
    requires
        command.id == Some(id),
        forall|i: int|
            0 <= i < history.len() ==> !registers(#[trigger] history[i], id) && !settles(
                history[i],
                id,
            ),
        report.id == id,
    ensures
        poll_step(
            after_fetches(board.enqueued(command, id, tx), board.queue.len()),
            PollEvent::Started,
        ).1 == PollAction::Send(command),
        taken(board.enqueued(command, id, tx), history).len() > board.queue.len() ==> taken(
            board.enqueued(command, id, tx),
            history,
        )[board.queue.len() as int] == command,
        report_acceptance(replayed(board.enqueued(command, id, tx), history), report) == Ok::<
            (ReplySender, Reply),
            HandlerError,
        >((tx, report.reply())),
        outcome_of_reply(report.reply()) == (ToolReply::Text {
            text: report.response,
            is_error: !report.success,
        }),
{
    let start = board.enqueued(command, id, tx);
    new_command_is_fetched_last(board, command, id, tx);
    reply_finds_its_caller(board, command, id, tx, history);
    commands_leave_in_the_order_of_their_coming(start, history);
    let n = board.queue.len() as int;
    if taken(start, history).len() > n {
        assert((taken(start, history) + replayed(start, history).queue)[n] == taken(
            start,
            history,
        )[n]);
        assert((start.queue + added(history))[n] == command);
    }
}

/// A report under an id that nobody waits for is refused, until a command is registered under it.
pub proof fn unknown_report_is_refused(
    board: Board,
    report: RunCommandResponse,
    history: Seq<Change>,
)
    requires
        !board.pending.contains_key(report.id),
        forall|i: int| 0 <= i < history.len() ==> !registers(#[trigger] history[i], report.id),
    ensures
        report_acceptance(replayed(board, history), report) == Err::<
            (ReplySender, Reply),
            HandlerError,
        >(HandlerError::UnknownId),
{
    assert(board.settled(report.id) =~= board);
    reply_is_accepted_once(board, report.id, history);
}

/// A command is answered at most once: after a reply, nobody waits under its id until a command
/// is registered under that id again.
pub proof fn reply_is_accepted_once(board: Board, id: u128, history: Seq<Change>)
    requires
        forall|i: int| 0 <= i < history.len() ==> !registers(#[trigger] history[i], id),
    ensures
        !replayed(board.settled(id), history).pending.contains_key(id),
    decreases history.len(),
{
    if history.len() > 0 {
        let earlier = history.drop_last();
        assert forall|i: int| 0 <= i < earlier.len() implies !registers(
            #[trigger] earlier[i],
            id,
        ) by {
            assert(earlier[i] == history[i]);
        }
        reply_is_accepted_once(board, id, earlier);
        assert(history.last() == history[history.len() - 1]);
    }
}

/// A reply to one command ends the wait for it, leaves the callers of all others alone, and the
/// queue as it is.
pub proof fn reply_leaves_others_alone(board: Board, id: u128, other: u128)
    requires
        other != id,
    ensures
        !board.settled(id).pending.contains_key(id),
        board.settled(id).pending.contains_key(other) == board.pending.contains_key(other),
        board.pending.contains_key(other) ==> board.settled(id).pending[other]
            == board.pending[other],
        board.settled(id).queue == board.queue,
        board.settled(id).waiter == board.waiter,
        board.settled(id).trigger == board.trigger,
{
}

/// A command is queued behind those that are queued already, and its caller is registered in place
/// of one that waited under the same id; all other callers stay.
pub proof fn queueing_adds_a_command_and_its_caller(
    board: Board,
    command: ToolArguments,
    id: u128,
    tx: ReplySender,
    other: u128,
)
    ensures
        ({
            let after = board.enqueued(command, id, tx);
            &&& after.queue == board.queue + seq![command]
            &&& after.pending.contains_key(id)
            &&& after.pending[id] == tx
            &&& other != id ==> after.pending.contains_key(other) == board.pending.contains_key(
                other,
            )
            &&& other != id && board.pending.contains_key(other) ==> after.pending[other]
                == board.pending[other]
            &&& after.waiter == board.waiter
            &&& after.trigger == board.trigger
        }),
{
    assert(board.enqueued(command, id, tx).queue =~= board.queue + seq![command]);
}

/// Taking a command off the queue takes the first one, and nothing else.
pub proof fn fetching_takes_the_first_command_alone(board: Board)
    requires
        board.queue.len() > 0,
    ensures
        board.queue == seq![board.queue[0]] + board.dequeued().queue,
        board.dequeued().pending == board.pending,
        board.dequeued().waiter == board.waiter,
        board.dequeued().trigger == board.trigger,
{
    assert(board.queue =~= seq![board.queue[0]] + board.dequeued().queue);
}

/// In a valid state every queued command can be reported on, and whoever waits for a change hears
/// of it.
pub proof fn valid_state_can_be_served(board: Board, place: int)
    requires
        board.valid(),
        0 <= place < board.queue.len(),
    ensures
        board.queue[place].id is Some,
        watching(board.waiter, board.trigger),
{
}

/// The state after `n` polls that each fetched a command.
pub open spec fn after_fetches(board: Board, n: nat) -> Board
    decreases n,
{
    if n == 0 {
        board
    } else {
        after_fetches(board, (n - 1) as nat).dequeued()
    }
}

proof fn lemma_after_fetches(board: Board, n: nat)
    requires
        n <= board.queue.len(),
    ensures
        after_fetches(board, n).queue == board.queue.skip(n as int),
    decreases n,
{
    if n == 0 {
        assert(board.queue.skip(0) =~= board.queue);
    } else {
        lemma_after_fetches(board, (n - 1) as nat);
        assert(board.queue.skip(n - 1).drop_first() =~= board.queue.skip(n as int));
    }
}

/// Commands are fetched in the order in which they were queued: the one at place `n` is what the
/// poll after `n` others is sent.
pub proof fn commands_are_fetched_in_order(board: Board, n: nat)
    requires
        n < board.queue.len(),
    ensures
        poll_step(after_fetches(board, n), PollEvent::Started).1 == PollAction::Send(
            board.queue[n as int],
        ),
        poll_step(after_fetches(board, n), PollEvent::Started).0 == after_fetches(board, n + 1),
        poll_step(after_fetches(board, n), PollEvent::Changed(Ok(()))) == poll_step(
            after_fetches(board, n),
            PollEvent::Started,
        ),
{
    lemma_after_fetches(board, n);
}

/// A new command goes behind all that wait already, and is fetched right after them.
pub proof fn new_command_is_fetched_last(
    board: Board,
    command: ToolArguments,
    id: u128,
    tx: ReplySender,
)
    ensures
        poll_step(
            after_fetches(board.enqueued(command, id, tx), board.queue.len()),
            PollEvent::Started,
        ).1 == PollAction::Send(command),
        forall|i: int|
            0 <= i < board.queue.len() ==> board.enqueued(command, id, tx).queue[i]
                == #[trigger] board.queue[i],
{
    commands_are_fetched_in_order(board.enqueued(command, id, tx), board.queue.len());
}

/// No poll loses a command: what it sends is what leaves the queue, and a poll that sends nothing,
/// because its time was over or it failed or there is no command, takes nothing. The waiting
/// callers are never touched.
pub proof fn poll_loses_no_command(board: Board, event: PollEvent)
    ensures
        ({
            let (after, action) = poll_step(board, event);
            &&& match action {
                PollAction::Send(command) => board.queue == seq![command] + after.queue,
                _ => after.queue == board.queue,
            }
            &&& after.pending == board.pending
        }),
{
    let (after, action) = poll_step(board, event);
    if let PollAction::Send(command) = action {
        assert(board.queue =~= seq![command] + after.queue);
    }
}

/// A poll waits as long as there is no command, also where it is woken without one.
pub proof fn poll_waits_while_there_is_no_command(board: Board)
    requires
        board.queue.len() == 0,
    ensures
        poll_step(board, PollEvent::Started) == (board, PollAction::AwaitChange),
        poll_step(board, PollEvent::Changed(Ok(()))) == (board, PollAction::AwaitChange),
{
}

/// A poll that finds a command, at its start or when it is woken, is sent the first one, which
/// leaves the queue. Nothing else changes.
pub proof fn poll_is_sent_the_first_command(board: Board, event: PollEvent)
    requires
        board.queue.len() > 0,
        event == PollEvent::Started || event == PollEvent::Changed(Ok(())),
    ensures
        ({
            let (after, action) = poll_step(board, event);
            &&& action == PollAction::Send(board.queue[0])
            &&& board.queue == seq![board.queue[0]] + after.queue
            &&& after.pending == board.pending
            &&& after.waiter == board.waiter
            &&& after.trigger == board.trigger
        }),
{
    let (after, action) = poll_step(board, event);
    assert(board.queue =~= seq![board.queue[0]] + after.queue);
}

/// A poll that waits is sent the next command that is queued, as soon as it is woken.
pub proof fn waiting_poll_is_sent_the_next_command(
    board: Board,
    command: ToolArguments,
    id: u128,
    tx: ReplySender,
)
    requires
        board.queue.len() == 0,
    ensures
        ({
            let (idle, wait) = poll_step(board, PollEvent::Started);
            let (after, action) = poll_step(
                idle.enqueued(command, id, tx),
                PollEvent::Changed(Ok(())),
            );
            &&& wait == PollAction::AwaitChange
            &&& action == PollAction::Send(command)
            &&& after.queue.len() == 0
            &&& after.pending.contains_key(id)
            &&& after.pending[id] == tx
        }),
{
}

/// A poll whose time is over is answered "locked", and one whose wait failed with the reason for
/// it. Both leave the state as it is.
pub proof fn poll_without_a_command_ends(board: Board, reason: String)
    ensures
        poll_step(board, PollEvent::TimedOut) == (board, PollAction::Locked),
        poll_step(board, PollEvent::Changed(Err(reason))).0 == board,
        poll_step(board, PollEvent::Changed(Err(reason))).1 matches PollAction::Fail(error)
            && error == HandlerError::ChangeLost(reason) && error.text() == reason@,
{
}

/// A step of the loop takes a command off the queue only to pass on that very command.
pub proof fn loop_loses_no_command(board: Board, event: DudEvent)
    ensures
        ({
            let (after, action) = dud_step(board, event);
            match action {
                DudAction::Forward(command) => board.queue == seq![command] + after.queue,
                _ => after.queue == board.queue,
            }
        }),
{
    let (after, action) = dud_step(board, event);
    if let DudAction::Forward(command) = action {
        assert(board.queue =~= seq![command] + after.queue);
    }
}

/// A step of the loop ends the wait of a caller only to read the answer for that very caller, and
/// registers nobody.
pub proof fn loop_forgets_no_caller(board: Board, event: DudEvent, id: u128)
    ensures
        ({
            let (after, action) = dud_step(board, event);
            &&& after.pending.contains_key(id) ==> board.pending.contains_key(id)
                && after.pending[id] == board.pending[id]
            &&& board.pending.contains_key(id) && !after.pending.contains_key(id) ==> {
                &&& event == (DudEvent::Posted { id: Some(id), answered: true })
                &&& action == DudAction::ReadReply(board.pending[id])
            }
            &&& after.waiter == board.waiter
            &&& after.trigger == board.trigger
        }),
{
}

/// A loop that is not to end passes on the first command, or waits if there is none; one that is
/// to end leaves the state as it is.
pub proof fn loop_passes_on_the_first_command(board: Board)
    ensures
        board.queue.len() > 0 ==> {
            let (after, action) = dud_step(board, DudEvent::ExitChecked { running: true });
            &&& action == DudAction::Forward(board.queue[0])
            &&& board.queue == seq![board.queue[0]] + after.queue
            &&& after.pending == board.pending
            &&& after.waiter == board.waiter
            &&& after.trigger == board.trigger
        },
        board.queue.len() == 0 ==> dud_step(board, DudEvent::ExitChecked { running: true }) == (
            board,
            DudAction::AwaitChange,
        ),
        dud_step(board, DudEvent::ExitChecked { running: false }) == (board, DudAction::Stop),
{
    if board.queue.len() > 0 {
        loop_loses_no_command(board, DudEvent::ExitChecked { running: true });
    }
}

/// A change only ends the wait of the loop, which then passes on what was queued meanwhile. Where
/// no change can come any more, the loop fails.
pub proof fn woken_loop_passes_on_what_is_queued(
    board: Board,
    command: ToolArguments,
    id: u128,
    tx: ReplySender,
)
    ensures
        dud_step(board, DudEvent::Changed { open: true }) == (board, DudAction::CheckExit),
        dud_step(board, DudEvent::Changed { open: false }) == (
            board,
            DudAction::Abort(DudFailure::ChangeLost),
        ),
        board.queue.len() == 0 ==> {
            let woken = dud_step(board.enqueued(command, id, tx), DudEvent::Changed { open: true });
            let (after, action) = dud_step(woken.0, DudEvent::ExitChecked { running: true });
            &&& woken.1 == DudAction::CheckExit
            &&& action == DudAction::Forward(command)
            &&& after.queue.len() == 0
            &&& after.pending.contains_key(id)
            &&& after.pending[id] == tx
        },
{
}

/// The answer to a post is read for the caller that waits under the id of the command, and only
/// that caller waits no more. Without such a caller, or without an id, the loop fails. A post
/// that was not answered changes nothing.
pub proof fn answer_is_read_for_the_waiting_caller(board: Board, id: u128, other: u128)
    ensures
        board.pending.contains_key(id) ==> {
            let (after, action) = dud_step(
                board,
                DudEvent::Posted { id: Some(id), answered: true },
            );
            &&& action == DudAction::ReadReply(board.pending[id])
            &&& !after.pending.contains_key(id)
            &&& other != id ==> after.pending.contains_key(other) == board.pending.contains_key(
                other,
            )
            &&& other != id && board.pending.contains_key(other) ==> after.pending[other]
                == board.pending[other]
            &&& after.queue == board.queue
        },
        !board.pending.contains_key(id) ==> dud_step(
            board,
            DudEvent::Posted { id: Some(id), answered: true },
        ) == (board, DudAction::Abort(DudFailure::NotPending)),
        dud_step(board, DudEvent::Posted { id: None, answered: true }) == (
            board,
            DudAction::Abort(DudFailure::MissingId),
        ),
        dud_step(board, DudEvent::Posted { id: Some(id), answered: false }) == (
            board,
            DudAction::CheckExit,
        ),
        dud_step(board, DudEvent::Posted { id: None, answered: false }) == (
            board,
            DudAction::CheckExit,
        ),
{
}

/// What was read of an answer goes to its caller as it is, and the state stays; the loop goes on if
/// it was received, and fails over that very reply if not.
pub proof fn answer_is_handed_on(
    board: Board,
    tx: ReplySender,
    read: Result<RunCommandResponse, String>,
    reason: String,
    unsent: Reply,
)
    ensures
        dud_step(board, DudEvent::ReplyRead { tx, read }) == (board, DudAction::CheckExit),
        match read {
            Ok(report) => relayed_reply(read) == Ok::<String, String>(report.response),
            Err(text) => relayed_reply(read) == Err::<String, String>(text),
        },
        relay_result(Ok(())) == DudAction::CheckExit,
        relay_result(Err((reason, unsent))) == DudAction::Abort(DudFailure::Undelivered(unsent)),
{
}

/// A report is accepted exactly if somebody waits under its id, and it is for that caller. The
/// reply has the text of the report, and is an error exactly if the command failed.
pub proof fn report_is_accepted_for_its_caller(board: Board, report: RunCommandResponse)
    ensures
        match report_acceptance(board, report) {
            Ok((tx, reply)) => {
                &&& board.pending.contains_key(report.id)
                &&& tx == board.pending[report.id]
                &&& reply == if report.success {
                    Ok::<String, String>(report.response)
                } else {
                    Err::<String, String>(report.response)
                }
            },
            Err(error) => {
                &&& !board.pending.contains_key(report.id)
                &&& error == HandlerError::UnknownId
            },
        },
{
}

/// Studio is told that its report was delivered exactly if it was; otherwise the error of the
/// channel, with the reply that was not received.
pub proof fn studio_is_told_of_the_delivery(reason: String, unsent: Reply)
    ensures
        delivery_result(Ok(())) is Ok,
        delivery_result(Err((reason, unsent))) matches Err(error) && error
            == (HandlerError::Undelivered { text: reason, reply: unsent }) && error.text()
            == reason@,
{
}

/// The texts in which the endpoints report their errors.
pub proof fn errors_have_their_texts(reason: String, reply: Reply)
    ensures
        HandlerError::UnknownId.text() == "Unknown ID"@,
        HandlerError::MissingId.text() == "Got proxy command with no id"@,
        HandlerError::NoResponse.text() == "Couldn't receive response"@,
        (HandlerError::Undelivered { text: reason, reply }).text() == reason@,
        HandlerError::ChangeLost(reason).text() == reason@,
{
}

/// A call goes on exactly if its command was announced; otherwise it fails with the reason.
pub proof fn call_fails_unless_announced(reason: String, result: Result<(), ToolError>)
    ensures
        announcement_concluded(Ok(()), result) == (result is Ok),
        announcement_concluded(Err(reason), result) ==> (result matches Err(error) && error.kind
            == ErrorKind::Internal && error.message@ == "Unable to trigger send "@ + reason@),
{
}

/// Whoever subscribed to the state, at whatever time, hears an announcement that is made for it.
pub proof fn subscribers_hear_announcements(board: Board, waiter: Waiter, trigger: Trigger)
    requires
        board.valid(),
        forall|t: Trigger| watching(waiter, t) == watching(board.waiter, t),
        forall|w: Waiter| watching(w, trigger) == watching(w, board.trigger),
    ensures
        watching(waiter, trigger),
{
}

/// A reply and a report say the same: the text is kept both ways, and a reply is an error exactly
/// if the report says that the command failed.
pub proof fn reply_and_report_agree(report: RunCommandResponse, id: u128, reply: Reply)
    ensures
        match report.reply() {
            Ok(text) => report.success && text == report.response,
            Err(text) => !report.success && text == report.response,
        },
        RunCommandResponse::of_reply(id, reply).id == id,
        match reply {
            Ok(text) => RunCommandResponse::of_reply(id, reply).success
                && RunCommandResponse::of_reply(id, reply).response == text,
            Err(text) => !RunCommandResponse::of_reply(id, reply).success
                && RunCommandResponse::of_reply(id, reply).response == text,
        },
{
}

/// The tool's answer has the text of the reply, and is an error exactly if the reply is one.
pub proof fn answer_repeats_the_reply(reply: Reply)
    ensures
        outcome_of_reply(reply) matches ToolReply::Text { text, is_error } && match reply {
            Ok(output) => text == output && !is_error,
            Err(reason) => text == reason && is_error,
        },
{
}

/// In the form of the protocol too, the client is told what Studio reported, as a failure exactly
/// if the command failed.
pub proof fn client_is_told_what_studio_reports(report: RunCommandResponse)
    ensures
        protocol_form(Ok(outcome_of_reply(report.reply()))) matches Ok(told) && told == (
        if report.success {
            success_with_text(report.response@)
        } else {
            failure_with_text(report.response@)
        }),
{
}

/// The report that comes out of a proxied command is the one that Studio sent.
pub proof fn proxied_report_is_kept(report: RunCommandResponse)
    ensures
        RunCommandResponse::of_reply(report.id, report.reply()) == report,
{
}

/// Every reply survives being reported and taken up again.
pub proof fn reported_reply_is_kept(id: u128, reply: Reply)
    ensures
        RunCommandResponse::of_reply(id, reply).reply() == reply,
        RunCommandResponse::of_reply(id, reply).id == id,
{
}

/// The client sees the text that Studio reported, marked as an error exactly if Studio said that
/// the command failed.
pub proof fn client_sees_what_studio_reports(report: RunCommandResponse)
    ensures
        outcome_of_reply(report.reply()) == (ToolReply::Text {
            text: report.response,
            is_error: !report.success,
        }),
{
}

/// Through a server without the port the client sees the text that Studio reported too, but it is
/// never marked as an error; only an answer that could not be read is.
pub proof fn relayed_text_is_never_an_error(report: RunCommandResponse, reason: String)
    ensures
        outcome_of_reply(relayed_reply(Ok(report))) == (ToolReply::Text {
            text: report.response,
            is_error: false,
        }),
        outcome_of_reply(relayed_reply(Err(reason))) == (ToolReply::Text {
            text: reason,
            is_error: true,
        }),
{
}

/// What holds in a server without the port as long as no id is used twice: the queued commands
/// have different ids, somebody waits for each of them, and also for the one that is being
/// passed on, which is not queued any more.
pub open spec fn all_awaited(board: Board, passed_on: Option<u128>) -> bool {
    &&& forall|i: int|
        0 <= i < board.queue.len() ==> (#[trigger] board.queue[i]).id is Some
            && board.pending.contains_key(board.queue[i].id->0)
    &&& forall|i: int, j: int|
        0 <= i < j < board.queue.len() ==> (#[trigger] board.queue[i]).id != (
        #[trigger] board.queue[j]).id
    &&& passed_on matches Some(id) ==> {
        &&& board.pending.contains_key(id)
        &&& forall|i: int| 0 <= i < board.queue.len() ==> (#[trigger] board.queue[i]).id != Some(id)
    }
}

/// With no command queued or passed on, as in a new server, every command is awaited.
pub proof fn nothing_queued_is_all_awaited(board: Board)
    requires
        board.queue.len() == 0,
    ensures
        all_awaited(board, None),
{
}

/// A command submitted under an id that is not in use keeps every command awaited.
pub proof fn submission_keeps_all_awaited(
    board: Board,
    passed_on: Option<u128>,
    command: ToolArguments,
    id: u128,
    tx: ReplySender,
)
    requires
        all_awaited(board, passed_on),
        command.id == Some(id),
        !board.pending.contains_key(id),
    ensures
        all_awaited(board.enqueued(command, id, tx), passed_on),
{
    let after = board.enqueued(command, id, tx);
    assert forall|i: int| 0 <= i < board.queue.len() implies (#[trigger] after.queue[i]).id != Some(
        id,
    ) && after.queue[i] == board.queue[i] by {
        assert(board.pending.contains_key(board.queue[i].id->0));
    }
}

/// The first command is passed on, and it is still awaited.
pub proof fn passing_on_keeps_all_awaited(board: Board)
    requires
        all_awaited(board, None),
        board.queue.len() > 0,
    ensures
        dud_step(board, DudEvent::ExitChecked { running: true }) == (
            board.dequeued(),
            DudAction::Forward(board.queue[0]),
        ),
        all_awaited(board.dequeued(), board.queue[0].id),
{
    let after = board.dequeued();
    assert forall|i: int| 0 <= i < after.queue.len() implies #[trigger] after.queue[i]
        == board.queue[i + 1] by {}
    assert(board.pending.contains_key(board.queue[0].id->0));
    assert forall|i: int, j: int| 0 <= i < j < after.queue.len() implies (
    #[trigger] after.queue[i]).id != (#[trigger] after.queue[j]).id by {
        assert(board.queue[i + 1].id != board.queue[j + 1].id);
    }
    assert forall|i: int| 0 <= i < after.queue.len() implies (#[trigger] after.queue[i]).id
        != board.queue[0].id && after.queue[i].id is Some && after.pending.contains_key(
        after.queue[i].id->0,
    ) by {
        assert(board.queue[i + 1].id != board.queue[0].id);
    }
}

/// The answer to the command that was passed on always finds its caller, and the others stay
/// awaited: the loop does not fail over a missing caller.
pub proof fn answer_finds_its_caller(board: Board, id: u128)
    requires
        all_awaited(board, Some(id)),
    ensures
        dud_step(board, DudEvent::Posted { id: Some(id), answered: true }) == (
            board.settled(id),
            DudAction::ReadReply(board.pending[id]),
        ),
        all_awaited(board.settled(id), None),
{
    let after = board.settled(id);
    assert forall|i: int| 0 <= i < after.queue.len() implies (#[trigger] after.queue[i]).id is Some
        && after.pending.contains_key(after.queue[i].id->0) by {
        assert(board.queue[i].id != Some(id));
    }
}

/// A call that ends after its answer keeps every command awaited: nobody waits under its id any
/// more, and nothing changes.
pub proof fn finish_keeps_all_awaited(board: Board, passed_on: Option<u128>, id: u128)
    requires
        all_awaited(board, passed_on),
        !board.pending.contains_key(id),
    ensures
        board.settled(id) == board,
        all_awaited(board.settled(id), passed_on),
{
    assert(board.settled(id) =~= board);
}

/// A post that failed gives the command up: it is not queued again, and its caller goes on waiting.
pub proof fn failed_post_gives_the_command_up(board: Board, id: u128)
    requires
        all_awaited(board, Some(id)),
    ensures
        dud_step(board, DudEvent::Posted { id: Some(id), answered: false }) == (
            board,
            DudAction::CheckExit,
        ),
        board.pending.contains_key(id),
        all_awaited(board, None),
{
}

} // verus!
