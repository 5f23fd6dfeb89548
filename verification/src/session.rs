//! The panel and the worker taken together: what a session's worker has done
//! once it has drained everything that the panel sent.
use vstd::prelude::*;
use crate::message::Message;
use crate::panel::{
    after_frames, commands_of, frame_actions, next_sent, Frame, PanelState,
};
use crate::worker::{after_queue, WorkerState};

verus! {

/// Everything that the panel puts on the control channel over a run of
/// frames, in send order.
pub open spec fn commands(state: PanelState, frames: Seq<Frame>) -> Seq<Message>
    decreases frames.len(),
{
    if frames.len() == 0 {
        Seq::empty()
    } else {
        commands(state, frames.drop_last()) + commands_of(
            frame_actions(after_frames(state, frames.drop_last()), frames.last()),
        )
    }
}

/// How many `Quit` commands a queue holds.
pub open spec fn count_quit(queue: Seq<Message>) -> nat
    decreases queue.len(),
{
    if queue.len() == 0 {
        0
    } else {
        count_quit(queue.drop_last()) + if queue.last() == Message::Quit {
            1nat
        } else {
            0nat
        }
    }
}

/// The `Quit` commands of two queues joined are those of both.
pub proof fn lemma_count_quit_append(first: Seq<Message>, second: Seq<Message>)
    ensures
        count_quit(first + second) == count_quit(first) + count_quit(second),
    decreases second.len(),
{
    if second.len() == 0 {
        assert(first + second =~= first);
    } else {
        lemma_count_quit_append(first, second.drop_last());
        assert((first + second).drop_last() =~= first + second.drop_last());
        assert((first + second).last() == second.last());
    }
}

/// Draining two queues one after the other is draining them joined.
pub proof fn lemma_queue_append(state: WorkerState, first: Seq<Message>, second: Seq<Message>)
    ensures
        after_queue(state, first + second) == after_queue(after_queue(state, first), second),
    decreases second.len(),
{
    if second.len() == 0 {
        assert(first + second =~= first);
    } else {
        lemma_queue_append(state, first, second.drop_last());
        assert((first + second).drop_last() =~= first + second.drop_last());
        assert((first + second).last() == second.last());
    }
}

/// Step count fidelity over a session's life: a worker that has drained all
/// that the panel sent has taken exactly one step for each `Next` sent, and
/// it is still running exactly if the panel still has its session. `Quit`
/// was sent once if the session has ended, and not at all if it has not.
pub proof fn lemma_session_fidelity(state: PanelState, frames: Seq<Frame>, worker: WorkerState)
    requires
        state.phase is Active,
        worker.running,
        forall|i: int| 0 <= i < frames.len() ==> !(#[trigger] frames[i]).generate,
    ensures
        after_queue(worker, commands(state, frames)).steps == worker.steps + next_sent(
            state,
            frames,
        ),
        after_queue(worker, commands(state, frames)).running == after_frames(
            state,
            frames,
        ).phase is Active,
        count_quit(commands(state, frames)) == if after_frames(state, frames).phase is Active {
            0nat
        } else {
            1nat
        },
    decreases frames.len(),
{
    if frames.len() > 0 {
        let earlier = frames.drop_last();
        let frame = frames.last();
        lemma_session_fidelity(state, earlier, worker);
        assert(!frames[frames.len() - 1].generate);
        let panel = after_frames(state, earlier);
        let drained = after_queue(worker, commands(state, earlier));
        let actions = frame_actions(panel, frame);
        let sent = commands_of(actions);
        lemma_queue_append(worker, commands(state, earlier), sent);
        lemma_count_quit_append(commands(state, earlier), sent);
        reveal_with_fuel(after_queue, 3);
        reveal_with_fuel(count_quit, 3);
        if actions.send_next && actions.send_quit {
            assert(sent =~= seq![Message::Next, Message::Quit]);
            assert(sent.drop_last() =~= seq![Message::Next]);
            assert(sent.drop_last().drop_last() =~= Seq::<Message>::empty());
        } else if actions.send_next {
            assert(sent =~= seq![Message::Next]);
            assert(sent.drop_last() =~= Seq::<Message>::empty());
        } else if actions.send_quit {
            assert(sent =~= seq![Message::Quit]);
            assert(sent.drop_last() =~= Seq::<Message>::empty());
        } else {
            assert(sent =~= Seq::<Message>::empty());
        }
    }
}

} // verus!
