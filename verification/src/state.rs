//! The state that all handlers of the server share.

use crate::channels::{
    change_channel, clone_trigger, clone_waiter, watching, ReplySender, Trigger, Waiter,
};
use crate::tools::ToolArguments;
use std::collections::{HashMap, VecDeque};
use vstd::prelude::*;

verus! {

broadcast use vstd::std_specs::hash::group_hash_axioms;

/// The commands that Studio has yet to fetch, in the order in which they were queued, and the
/// callers that wait for a reply, by command id.
pub struct AppState {
    process_queue: VecDeque<ToolArguments>,
    output_map: HashMap<u128, ReplySender>,
    waiter: Waiter,
    trigger: Trigger,
}

/// The contents of an [`AppState`].
#[verifier::ext_equal]
pub struct Board {
    pub queue: Seq<ToolArguments>,
    pub pending: Map<u128, ReplySender>,
    pub waiter: Waiter,
    pub trigger: Trigger,
}

impl Board {
    /// `command` queued last, with `tx` waiting under `id`. A caller that waited under the same
    /// id is replaced.
    pub open spec fn enqueued(self, command: ToolArguments, id: u128, tx: ReplySender) -> Board {
        Board { queue: self.queue.push(command), pending: self.pending.insert(id, tx), ..self }
    }

    /// The first command taken off the queue.
    pub open spec fn dequeued(self) -> Board {
        Board { queue: self.queue.drop_first(), ..self }
    }

    /// Nobody waiting under `id` any more.
    pub open spec fn settled(self, id: u128) -> Board {
        Board { pending: self.pending.remove(id), ..self }
    }

    /// What holds between any two operations: every queued command has an id, and a change
    /// announced on the trigger is seen by the waiter.
    pub open spec fn valid(self) -> bool {
        &&& forall|i: int| 0 <= i < self.queue.len() ==> (#[trigger] self.queue[i]).id is Some
        &&& watching(self.waiter, self.trigger)
    }
}

impl View for AppState {
    type V = Board;

    closed spec fn view(&self) -> Board {
        Board {
            queue: self.process_queue@,
            pending: self.output_map@,
            waiter: self.waiter,
            trigger: self.trigger,
        }
    }
}

impl AppState {
    /// Whether the state is one that the operations lead to.
    pub open spec fn wf(&self) -> bool {
        self@.valid()
    }

    /// A state with no command queued and nobody waiting.
    pub fn new() -> (state: Self)
        ensures
            state.wf(),
            state@.queue == Seq::<ToolArguments>::empty(),
            state@.pending == Map::<u128, ReplySender>::empty(),
    {
        let (trigger, waiter) = change_channel();
        AppState { process_queue: VecDeque::new(), output_map: HashMap::new(), waiter, trigger }
    }

    /// Queues a command and registers the caller that waits for its reply.
    pub fn enqueue(&mut self, command: ToolArguments, id: u128, tx: ReplySender)
        requires
            old(self).wf(),
            command.id == Some(id),
        ensures
            final(self).wf(),
            final(self)@ == old(self)@.enqueued(command, id, tx),
    {
        self.process_queue.push_back(command);
        self.output_map.insert(id, tx);
        assert(self@ =~= old(self)@.enqueued(command, id, tx));
    }

    /// Takes the command that has been queued the longest.
    pub fn next_command(&mut self) -> (command: Option<ToolArguments>)
        requires
            old(self).wf(),
        ensures
            final(self).wf(),
            match command {
                Some(first) => {
                    &&& old(self)@.queue.len() > 0
                    &&& first == old(self)@.queue[0]
                    &&& final(self)@ == old(self)@.dequeued()
                },
                None => old(self)@.queue.len() == 0 && final(self)@ == old(self)@,
            },
    {
        let command = self.process_queue.pop_front();
        assert(command is Some ==> self@ =~= old(self)@.dequeued());
        assert(command is None ==> self@ =~= old(self)@);
        command
    }

    /// Takes the caller that waits under `id`, if there is one.
    pub fn take_pending(&mut self, id: u128) -> (tx: Option<ReplySender>)
        requires
            old(self).wf(),
        ensures
            final(self).wf(),
            final(self)@ == old(self)@.settled(id),
            tx == (if old(self)@.pending.contains_key(id) {
                Some(old(self)@.pending[id])
            } else {
                None
            }),
    {
        let tx = self.output_map.remove(&id);
        assert(self@ =~= old(self)@.settled(id));
        tx
    }

    /// A receiver that sees every change. It has not seen any yet: where a change was announced
    /// before, the first wait on it ends at once.
    pub fn subscribe(&self) -> (waiter: Waiter)
        requires
            self.wf(),
        ensures
            forall|trigger: Trigger| watching(waiter, trigger) == watching(self@.waiter, trigger),
            watching(waiter, self@.trigger),
    {
        clone_waiter(&self.waiter)
    }

    /// A sender on which a change can be announced.
    pub fn announcer(&self) -> (trigger: Trigger)
        requires
            self.wf(),
        ensures
            forall|waiter: Waiter| watching(waiter, trigger) == watching(waiter, self@.trigger),
            watching(self@.waiter, trigger),
    {
        clone_trigger(&self.trigger)
    }
}

} // verus!
