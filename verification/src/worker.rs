//! The generation worker's side of the control protocol.
//!
//! The worker owns the optimizer. It waits for a command, and this module
//! decides what each command means: advance once and publish, or leave.
use vstd::prelude::*;
use crate::message::Message;

verus! {

/// What the worker thread has to do after an event on its channel.
#[derive(Clone, Copy, Debug, PartialEq, Eq, Structural)]
pub enum WorkerAction {
    /// Advance the optimizer by exactly one step, materialize the figure and
    /// replace the slot's content with it, stamped with the given generation.
    Advance(u64),
    /// Leave the receive loop.
    Exit,
    /// The channel is disconnected although no `Quit` was received: the
    /// teardown protocol was broken, and the thread fails loudly.
    Abort,
}

/// The worker as the protocol sees it.
pub struct WorkerState {
    /// Optimizer steps performed since the session started.
    pub steps: nat,
    /// Whether the receive loop is still running.
    pub running: bool,
}

/// The state after one command.
pub open spec fn after_message(state: WorkerState, message: Message) -> WorkerState {
    if !state.running {
        state
    } else {
        match message {
            Message::Next => WorkerState { steps: state.steps + 1, running: true },
            Message::Quit => WorkerState { steps: state.steps, running: false },
        }
    }
}

/// The state after a queue of commands, taken in send order.
pub open spec fn after_queue(state: WorkerState, queue: Seq<Message>) -> WorkerState
    decreases queue.len(),
{
    if queue.len() == 0 {
        state
    } else {
        after_message(after_queue(state, queue.drop_last()), queue.last())
    }
}

/// The action that an event asks of a worker in `state`. `None` stands for a
/// disconnected channel.
pub open spec fn action_for(state: WorkerState, event: Option<Message>) -> WorkerAction {
    if !state.running {
        WorkerAction::Exit
    } else {
        match event {
            Some(Message::Next) => WorkerAction::Advance((state.steps + 1) as u64),
            Some(Message::Quit) => WorkerAction::Exit,
            None => WorkerAction::Abort,
        }
    }
}

/// The state after an event. A disconnected channel stops the worker as a
/// `Quit` does.
pub open spec fn after_event(state: WorkerState, event: Option<Message>) -> WorkerState {
    match event {
        Some(message) => after_message(state, message),
        None => WorkerState { steps: state.steps, running: false },
    }
}

/// How many `Next` commands a queue holds.
pub open spec fn count_next(queue: Seq<Message>) -> nat
    decreases queue.len(),
{
    if queue.len() == 0 {
        0
    } else {
        count_next(queue.drop_last()) + if queue.last() == Message::Next { 1nat } else { 0nat }
    }
}

/// The generation stamped on the slot once the worker has drained `queue`,
/// where `stamp` was on it before: each `Advance` replaces the slot's
/// content, and nothing else writes to it.
pub open spec fn stamp_after(stamp: u64, state: WorkerState, queue: Seq<Message>) -> u64
    decreases queue.len(),
{
    if queue.len() == 0 {
        stamp
    } else {
        match action_for(after_queue(state, queue.drop_last()), Some(queue.last())) {
            WorkerAction::Advance(generation) => generation,
            _ => stamp_after(stamp, state, queue.drop_last()),
        }
    }
}

/// The generation worker's protocol state.
pub struct Worker {
    steps: u64,
    running: bool,
}

impl View for Worker {
    type V = WorkerState;

    closed spec fn view(&self) -> WorkerState {
        WorkerState { steps: self.steps as nat, running: self.running }
    }
}

impl Worker {
    /// A worker at the start of a session: no step taken, loop running.
    pub fn new() -> (worker: Worker)
        ensures
            worker@ == (WorkerState { steps: 0, running: true }),
    {
        Worker { steps: 0, running: true }
    }

    /// Optimizer steps performed so far.
    pub fn steps(&self) -> (steps: u64)
        ensures
            steps == self@.steps,
    {
        self.steps
    }

    /// Whether the receive loop is still running.
    pub fn is_running(&self) -> (running: bool)
        ensures
            running == self@.running,
    {
        self.running
    }

    /// Decides what the worker does with one event from its channel; `None`
    /// is a disconnected channel.
    ///
    /// A `Next` is answered by exactly one step, whose figure carries the new
    /// step count. A `Quit` ends the loop, and so does a disconnection, which
    /// is reported as a failure. Once the loop has ended every event is
    /// answered by `Exit` and changes nothing.
    pub fn receive(&mut self, event: Option<Message>) -> (action: WorkerAction)
        requires
            old(self)@.running && event == Some(Message::Next) ==> old(self)@.steps < u64::MAX,
        ensures
            action == action_for(old(self)@, event),
            final(self)@ == after_event(old(self)@, event),
    {
        if !self.running {
            return WorkerAction::Exit;
        }
        match event {
            Some(Message::Next) => {
                self.steps = self.steps + 1;
                WorkerAction::Advance(self.steps)
            },
            Some(Message::Quit) => {
                self.running = false;
                WorkerAction::Exit
            },
            None => {
                self.running = false;
                WorkerAction::Abort
            },
        }
    }

    /// Feeds a queue of commands to the worker in send order and returns how
    /// many steps they caused.
    pub fn replay(&mut self, queue: &Vec<Message>) -> (advanced: u64)
        requires
            old(self)@.steps + queue@.len() <= u64::MAX,
        ensures
            final(self)@ == after_queue(old(self)@, queue@),
            advanced == final(self)@.steps - old(self)@.steps,
    {
        let first: u64 = self.steps;
        let mut i: usize = 0;
        while i < queue.len()
            invariant
                0 <= i <= queue@.len(),
                first == old(self)@.steps,
                self@ == after_queue(old(self)@, queue@.take(i as int)),
                first <= self@.steps <= first + i,
                first + queue@.len() <= u64::MAX,
            decreases queue@.len() - i,
        {
            proof {
                let next = queue@.take(i + 1);
                assert(next.drop_last() =~= queue@.take(i as int));
                assert(next.last() == queue@[i as int]);
            }
            let _ = self.receive(Some(queue[i]));
            i = i + 1;
        }
        assert(queue@.take(queue@.len() as int) =~= queue@);
        self.steps - first
    }
}

/// Each `Next` is answered by one step, never skipped and never repeated: a
/// running worker that receives a queue without `Quit` has afterwards taken
/// one step more for every `Next` in it, and is still running.
pub proof fn lemma_one_step_per_next(state: WorkerState, queue: Seq<Message>)
    requires
        state.running,
        forall|i: int| 0 <= i < queue.len() ==> queue[i] == Message::Next,
    ensures
        after_queue(state, queue) == (WorkerState {
            steps: state.steps + queue.len(),
            running: true,
        }),
        queue.len() > 0 ==> action_for(
            after_queue(state, queue.drop_last()),
            Some(queue.last()),
        ) == WorkerAction::Advance((state.steps + queue.len()) as u64),
    decreases queue.len(),
{
    if queue.len() > 0 {
        lemma_one_step_per_next(state, queue.drop_last());
    }
}

/// The steps that a queue causes are never more than its `Next` commands,
/// and exactly as many while no `Quit` came before.
pub proof fn lemma_steps_bounded_by_next(state: WorkerState, queue: Seq<Message>)
    ensures
        state.steps <= after_queue(state, queue).steps <= state.steps + count_next(queue),
        after_queue(state, queue).running ==> after_queue(state, queue).steps == state.steps
            + count_next(queue),
        after_queue(state, queue).running ==> state.running,
        count_next(queue) <= queue.len(),
    decreases queue.len(),
{
    if queue.len() > 0 {
        lemma_steps_bounded_by_next(state, queue.drop_last());
    }
}

/// The slot reflects exactly the steps taken: where its figure was that of
/// the worker's step count before a queue, it is that of the step count
/// after it.
pub proof fn lemma_slot_reflects_steps(stamp: u64, state: WorkerState, queue: Seq<Message>)
    requires
        stamp == state.steps,
        state.steps + queue.len() <= u64::MAX,
    ensures
        stamp_after(stamp, state, queue) == after_queue(state, queue).steps,
    decreases queue.len(),
{
    if queue.len() > 0 {
        lemma_slot_reflects_steps(stamp, state, queue.drop_last());
        lemma_steps_bounded_by_next(state, queue.drop_last());
    }
}

/// With no `Next` sent the figure never changes: whatever else arrives, the
/// step count stays and no event is answered by `Advance`.
pub proof fn lemma_idle_stability(stamp: u64, state: WorkerState, queue: Seq<Message>)
    requires
        count_next(queue) == 0,
    ensures
        after_queue(state, queue).steps == state.steps,
        stamp_after(stamp, state, queue) == stamp,
        forall|i: int|
            0 <= i < queue.len() ==> !(#[trigger] action_for(
                after_queue(state, queue.take(i)),
                Some(queue[i]),
            ) is Advance),
    decreases queue.len(),
{
    lemma_steps_bounded_by_next(state, queue);
    if queue.len() > 0 {
        let shorter = queue.drop_last();
        lemma_idle_stability(stamp, state, shorter);
        assert forall|i: int| 0 <= i < queue.len() implies !(#[trigger] action_for(
            after_queue(state, queue.take(i)),
            Some(queue[i]),
        ) is Advance) by {
            if i < shorter.len() {
                assert(shorter.take(i) =~= queue.take(i));
                assert(shorter[i] == queue[i]);
            } else {
                assert(queue.take(i) =~= shorter);
            }
        }
    }
}

/// What follows a `Quit` is never processed: the worker has stopped, and the
/// commands behind the `Quit` neither add a step nor restart it.
pub proof fn lemma_nothing_after_quit(
    stamp: u64,
    state: WorkerState,
    before: Seq<Message>,
    after: Seq<Message>,
)
    ensures
        !after_queue(state, before.push(Message::Quit)).running,
        after_queue(state, before.push(Message::Quit) + after) == after_queue(
            state,
            before.push(Message::Quit),
        ),
        after_queue(state, before.push(Message::Quit) + after).steps == after_queue(
            state,
            before,
        ).steps,
        stamp_after(stamp, state, before.push(Message::Quit) + after) == stamp_after(
            stamp,
            state,
            before,
        ),
    decreases after.len(),
{
    let sent = before.push(Message::Quit);
    assert(sent.drop_last() =~= before);
    if after.len() == 0 {
        assert(sent + after =~= sent);
    } else {
        lemma_nothing_after_quit(stamp, state, before, after.drop_last());
        assert((sent + after).drop_last() =~= sent + after.drop_last());
        assert((sent + after).last() == after.last());
    }
}

} // verus!
