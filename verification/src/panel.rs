//! The control panel: starting a session and commanding it.
//!
//! The panel is either without a session, and then shows the start-up form,
//! or has one, and then shows the run controls. Once per frame it is told
//! what the operator did and answers with the commands to issue.
use vstd::prelude::*;
use crate::input::{parse_worker_count, worker_count_of};
use crate::message::Message;

verus! {

/// Whether a session exists, and if so how it is being driven.
#[derive(Clone, Copy, Debug, PartialEq, Eq, Structural)]
pub enum Phase {
    /// No session: the start-up form is shown.
    NoSession,
    /// A session is active: the run controls are shown.
    Active {
        /// Whether the session runs continuously.
        run: bool,
        /// How many `Next` commands were sent to its worker.
        sent: u64,
    },
}

/// What the operator and the slot reported in one frame.
#[derive(Debug)]
pub struct Frame {
    /// The quit button was clicked.
    pub quit: bool,
    /// The stop button was clicked.
    pub stop: bool,
    /// The run button was clicked.
    pub run: bool,
    /// The single-step button was clicked.
    pub next: bool,
    /// The generate button was clicked.
    pub generate: bool,
    /// The chosen file could be read and holds a valid problem definition.
    /// Read only in a frame with `generate`.
    pub file_ok: bool,
    /// The adjustment-bound text is a positive number. Read only in a frame
    /// with `generate`.
    pub bound_ok: bool,
    /// The file that the operator picked in this frame, if any.
    pub picked: Option<String>,
    /// The generation of the figure that the renderer read from the slot.
    pub observed: u64,
}

/// The commands that a frame results in. Where both are set, `Next` is sent
/// before `Quit`.
#[derive(Clone, Copy, Debug, PartialEq, Eq, Structural)]
pub struct Actions {
    /// Send one `Next` to the worker.
    pub send_next: bool,
    /// Tear the session down: send `Quit`, then release the session.
    pub send_quit: bool,
    /// Start a session with this many optimizer workers.
    pub spawn: Option<usize>,
}

/// The panel as the contracts see it.
pub struct PanelState {
    /// The chosen problem file's path, if one was chosen.
    pub file: Option<Seq<char>>,
    /// Whether the file passed the last validation.
    pub file_valid: bool,
    /// The text of the worker-count field.
    pub worker_count: Seq<char>,
    /// Whether the worker count passed the last validation.
    pub worker_count_valid: bool,
    /// The text of the adjustment-bound field.
    pub max_adjustment: Seq<char>,
    /// Whether the adjustment bound passed the last validation.
    pub max_adjustment_valid: bool,
    /// Whether a session exists, and how it is driven.
    pub phase: Phase,
}

/// The start-up fields validate, each on its own: a file is chosen and
/// loads, the worker count reads as a positive integer, the bound is a
/// positive number.
pub open spec fn all_valid(state: PanelState, file_ok: bool, bound_ok: bool) -> bool {
    &&& state.file is Some && file_ok
    &&& worker_count_of(state.worker_count) is Some
    &&& bound_ok
}

/// The panel after the generate button: every field's flag says whether that
/// field validates, and a session exists if and only if all of them do. With
/// a session already active the button does not exist and nothing changes.
pub open spec fn after_generate(state: PanelState, file_ok: bool, bound_ok: bool) -> PanelState {
    if state.phase is Active {
        state
    } else {
        PanelState {
            file_valid: state.file is Some && file_ok,
            worker_count_valid: worker_count_of(state.worker_count) is Some,
            max_adjustment_valid: bound_ok,
            phase: if all_valid(state, file_ok, bound_ok) {
                Phase::Active { run: false, sent: 0 }
            } else {
                Phase::NoSession
            },
            ..state
        }
    }
}

/// The worker count to start a session with, if the generate button starts
/// one.
pub open spec fn spawn_for(state: PanelState, file_ok: bool, bound_ok: bool) -> Option<usize> {
    if state.phase is NoSession && all_valid(state, file_ok, bound_ok) {
        worker_count_of(state.worker_count)
    } else {
        None
    }
}

/// Whether a frame sends a `Next`.
///
/// A session that runs continuously sends one per frame unless it is being
/// stopped, and only once the figure of every earlier `Next` has been
/// observed, so that at most one step is in flight. Otherwise one is sent
/// for a click on the single-step button. A session whose counter of sent
/// commands has reached the largest `u64` sends no more.
pub open spec fn sends_next(phase: Phase, frame: Frame) -> bool {
    match phase {
        Phase::NoSession => false,
        Phase::Active { run, sent } => sent < u64::MAX && if run {
            !frame.stop && sent <= frame.observed
        } else {
            frame.next
        },
    }
}

/// The phase after a frame's run controls.
pub open spec fn after_control(phase: Phase, frame: Frame) -> Phase {
    match phase {
        Phase::NoSession => Phase::NoSession,
        Phase::Active { run, sent } => if frame.quit {
            Phase::NoSession
        } else {
            Phase::Active {
                run: if run {
                    !frame.stop
                } else {
                    frame.run
                },
                sent: if sends_next(phase, frame) {
                    (sent + 1) as u64
                } else {
                    sent
                },
            }
        },
    }
}

/// The commands of a frame's run controls.
pub open spec fn control_actions(phase: Phase, frame: Frame) -> Actions {
    Actions {
        send_next: sends_next(phase, frame),
        send_quit: phase is Active && frame.quit,
        spawn: None,
    }
}

/// The panel after a whole frame: the run controls where a session exists,
/// else the form; then the file picked in the frame, if any.
pub open spec fn after_frame(state: PanelState, frame: Frame) -> PanelState {
    let handled = match state.phase {
        Phase::Active { .. } => PanelState { phase: after_control(state.phase, frame), ..state },
        Phase::NoSession => if frame.generate {
            after_generate(state, frame.file_ok, frame.bound_ok)
        } else {
            state
        },
    };
    match frame.picked {
        Some(path) => PanelState { file: Some(path@), ..handled },
        None => handled,
    }
}

/// The commands of a whole frame.
pub open spec fn frame_actions(state: PanelState, frame: Frame) -> Actions {
    match state.phase {
        Phase::Active { .. } => control_actions(state.phase, frame),
        Phase::NoSession => Actions {
            send_next: false,
            send_quit: false,
            spawn: if frame.generate {
                spawn_for(state, frame.file_ok, frame.bound_ok)
            } else {
                None
            },
        },
    }
}

/// The messages that a frame's commands put on the control channel, in the
/// order in which they are sent.
pub open spec fn commands_of(actions: Actions) -> Seq<Message> {
    (if actions.send_next {
        seq![Message::Next]
    } else {
        Seq::empty()
    }) + (if actions.send_quit {
        seq![Message::Quit]
    } else {
        Seq::empty()
    })
}

impl Actions {
    /// The messages to put on the control channel, in sending order.
    pub fn messages(&self) -> (out: Vec<Message>)
        ensures
            out@ == commands_of(*self),
    {
        let mut out: Vec<Message> = Vec::new();
        if self.send_next {
            out.push(Message::Next);
        }
        if self.send_quit {
            out.push(Message::Quit);
        }
        assert(out@ =~= commands_of(*self));
        out
    }
}

impl Frame {
    /// A frame in which nothing happened and a figure of the given
    /// generation was observed.
    pub fn quiet(observed: u64) -> (frame: Frame)
        ensures
            !frame.quit && !frame.stop && !frame.run && !frame.next && !frame.generate,
            !frame.file_ok && !frame.bound_ok,
            frame.picked is None,
            frame.observed == observed,
    {
        Frame {
            quit: false,
            stop: false,
            run: false,
            next: false,
            generate: false,
            file_ok: false,
            bound_ok: false,
            picked: None,
            observed,
        }
    }
}

/// The control panel.
pub struct Debugger {
    file: Option<String>,
    file_valid: bool,
    worker_count: String,
    worker_count_valid: bool,
    max_adjustment: String,
    max_adjustment_valid: bool,
    phase: Phase,
}

impl View for Debugger {
    type V = PanelState;

    closed spec fn view(&self) -> PanelState {
        PanelState {
            file: match self.file {
                Some(path) => Some(path@),
                None => None,
            },
            file_valid: self.file_valid,
            worker_count: self.worker_count@,
            worker_count_valid: self.worker_count_valid,
            max_adjustment: self.max_adjustment@,
            max_adjustment_valid: self.max_adjustment_valid,
            phase: self.phase,
        }
    }
}

impl Debugger {
    /// A panel without a session: no file chosen, 512 workers and a bound of
    /// 0.5 proposed, no field flagged.
    #[must_use]
    pub fn new() -> (panel: Debugger)
        ensures
            panel@ == (PanelState {
                file: None,
                file_valid: true,
                worker_count: "512"@,
                worker_count_valid: true,
                max_adjustment: "0.5"@,
                max_adjustment_valid: true,
                phase: Phase::NoSession,
            }),
    {
        Debugger {
            file: None,
            file_valid: true,
            worker_count: "512".to_owned(),
            worker_count_valid: true,
            max_adjustment: "0.5".to_owned(),
            max_adjustment_valid: true,
            phase: Phase::NoSession,
        }
    }

    /// Handles the generate button.
    ///
    /// Validates the three start-up fields independently and flags each. The
    /// worker count is read here; `file_ok` says whether the chosen file
    /// loaded as a problem definition and `bound_ok` whether the bound's
    /// text is a positive number. A session is created, and its worker count
    /// returned, if and only if all three validate; otherwise the panel
    /// stays without a session.
    pub fn generate(&mut self, file_ok: bool, bound_ok: bool) -> (workers: Option<usize>)
        ensures
            final(self)@ == after_generate(old(self)@, file_ok, bound_ok),
            workers == spawn_for(old(self)@, file_ok, bound_ok),
            workers is Some <==> old(self)@.phase is NoSession && final(self)@.phase is Active,
    {
        match self.phase {
            Phase::Active { .. } => None,
            Phase::NoSession => {
                let count = parse_worker_count(self.worker_count.as_str());
                self.file_valid = self.file.is_some() && file_ok;
                self.worker_count_valid = count.is_some();
                self.max_adjustment_valid = bound_ok;
                if self.file_valid && bound_ok && count.is_some() {
                    self.phase = Phase::Active { run: false, sent: 0 };
                    count
                } else {
                    None
                }
            },
        }
    }

    /// Handles the run controls of one frame: stop and run toggle continuous
    /// running, a `Next` is sent as `sends_next` says, and quit ends the
    /// session after that.
    pub fn control(&mut self, frame: &Frame) -> (actions: Actions)
        ensures
            actions == control_actions(old(self)@.phase, *frame),
            final(self)@ == (PanelState {
                phase: after_control(old(self)@.phase, *frame),
                ..old(self)@
            }),
    {
        match self.phase {
            Phase::NoSession => Actions { send_next: false, send_quit: false, spawn: None },
            Phase::Active { run, sent } => {
                let send: bool = sent < u64::MAX && if run {
                    !frame.stop && sent <= frame.observed
                } else {
                    frame.next
                };
                let run_next: bool = if run {
                    !frame.stop
                } else {
                    frame.run
                };
                let sent_next: u64 = if send {
                    sent + 1
                } else {
                    sent
                };
                if frame.quit {
                    self.phase = Phase::NoSession;
                } else {
                    self.phase = Phase::Active { run: run_next, sent: sent_next };
                }
                Actions { send_next: send, send_quit: frame.quit, spawn: None }
            },
        }
    }

    /// Ends the session, if there is one. Returns whether a `Quit` is to be
    /// sent: exactly once for each session.
    pub fn teardown(&mut self) -> (send_quit: bool)
        ensures
            send_quit == old(self)@.phase is Active,
            final(self)@ == (PanelState { phase: Phase::NoSession, ..old(self)@ }),
    {
        let active = self.is_active();
        self.phase = Phase::NoSession;
        active
    }

    /// Handles one frame and returns the commands to issue.
    pub fn show(&mut self, frame: Frame) -> (actions: Actions)
        ensures
            actions == frame_actions(old(self)@, frame),
            final(self)@ == after_frame(old(self)@, frame),
    {
        let actions = match self.phase {
            Phase::Active { .. } => self.control(&frame),
            Phase::NoSession => {
                let workers = if frame.generate {
                    self.generate(frame.file_ok, frame.bound_ok)
                } else {
                    None
                };
                Actions { send_next: false, send_quit: false, spawn: workers }
            },
        };
        if let Some(path) = frame.picked {
            self.file = Some(path);
        }
        actions
    }

    /// Chooses the problem file.
    pub fn choose_file(&mut self, path: String)
        ensures
            final(self)@ == (PanelState { file: Some(path@), ..old(self)@ }),
    {
        self.file = Some(path);
    }

    /// Replaces the text of the worker-count field.
    pub fn set_worker_count(&mut self, text: String)
        ensures
            final(self)@ == (PanelState { worker_count: text@, ..old(self)@ }),
    {
        self.worker_count = text;
    }

    /// Replaces the text of the adjustment-bound field.
    pub fn set_max_adjustment(&mut self, text: String)
        ensures
            final(self)@ == (PanelState { max_adjustment: text@, ..old(self)@ }),
    {
        self.max_adjustment = text;
    }

    /// The chosen problem file.
    pub fn file(&self) -> (file: Option<&String>)
        ensures
            file is Some <==> self@.file is Some,
            file is Some ==> self@.file == Some(file->0@),
    {
        self.file.as_ref()
    }

    /// The text of the worker-count field.
    pub fn worker_count(&self) -> (text: &str)
        ensures
            text@ == self@.worker_count,
    {
        self.worker_count.as_str()
    }

    /// The text of the adjustment-bound field.
    pub fn max_adjustment(&self) -> (text: &str)
        ensures
            text@ == self@.max_adjustment,
    {
        self.max_adjustment.as_str()
    }

    /// Whether the file passed the last validation.
    pub fn file_valid(&self) -> (valid: bool)
        ensures
            valid == self@.file_valid,
    {
        self.file_valid
    }

    /// Whether the worker count passed the last validation.
    pub fn worker_count_valid(&self) -> (valid: bool)
        ensures
            valid == self@.worker_count_valid,
    {
        self.worker_count_valid
    }

    /// Whether the adjustment bound passed the last validation.
    pub fn max_adjustment_valid(&self) -> (valid: bool)
        ensures
            valid == self@.max_adjustment_valid,
    {
        self.max_adjustment_valid
    }

    /// The panel's phase.
    pub fn phase(&self) -> (phase: Phase)
        ensures
            phase == self@.phase,
    {
        self.phase
    }

    /// Whether a session exists: the run controls are shown and the figure
    /// is rendered. Without one the start-up form is shown.
    pub fn is_active(&self) -> (active: bool)
        ensures
            active == self@.phase is Active,
    {
        match self.phase {
            Phase::Active { .. } => true,
            Phase::NoSession => false,
        }
    }

    /// Whether a session exists and runs continuously.
    pub fn is_running(&self) -> (running: bool)
        ensures
            running == (self@.phase matches Phase::Active { run, .. } && run),
    {
        match self.phase {
            Phase::Active { run, .. } => run,
            Phase::NoSession => false,
        }
    }
}

/// The panel after a run of frames, taken in order.
pub open spec fn after_frames(state: PanelState, frames: Seq<Frame>) -> PanelState
    decreases frames.len(),
{
    if frames.len() == 0 {
        state
    } else {
        after_frame(after_frames(state, frames.drop_last()), frames.last())
    }
}

/// How many `Next` commands a run of frames sends.
pub open spec fn next_sent(state: PanelState, frames: Seq<Frame>) -> nat
    decreases frames.len(),
{
    if frames.len() == 0 {
        0
    } else {
        next_sent(state, frames.drop_last()) + if frame_actions(
            after_frames(state, frames.drop_last()),
            frames.last(),
        ).send_next {
            1nat
        } else {
            0nat
        }
    }
}

/// Whether the panel drives a session continuously.
pub open spec fn runs(phase: Phase) -> bool {
    phase matches Phase::Active { run, .. } && run
}

/// A session comes to be in a frame if and only if the generate button was
/// clicked and all three start-up fields validate. Each flag then tells of
/// its own field alone, and a frame without a session sends nothing.
pub proof fn lemma_session_iff_all_valid(state: PanelState, frame: Frame)
    requires
        state.phase is NoSession,
    ensures
        after_frame(state, frame).phase is Active <==> frame.generate && all_valid(
            state,
            frame.file_ok,
            frame.bound_ok,
        ),
        frame_actions(state, frame).spawn is Some <==> after_frame(state, frame).phase is Active,
        frame.generate ==> after_frame(state, frame).file_valid == (state.file is Some
            && frame.file_ok),
        frame.generate ==> after_frame(state, frame).worker_count_valid == (worker_count_of(
            state.worker_count,
        ) is Some),
        frame.generate ==> after_frame(state, frame).max_adjustment_valid == frame.bound_ok,
        !frame_actions(state, frame).send_next,
        !frame_actions(state, frame).send_quit,
{
}

/// Once a session is torn down no `Next` is sent any more: as long as no
/// new session is generated, the panel stays without one and every frame
/// sends nothing.
pub proof fn lemma_no_next_without_session(state: PanelState, frames: Seq<Frame>)
    requires
        state.phase is NoSession,
        forall|i: int| 0 <= i < frames.len() ==> !(#[trigger] frames[i]).generate,
    ensures
        after_frames(state, frames).phase is NoSession,
        next_sent(state, frames) == 0,
    decreases frames.len(),
{
    if frames.len() > 0 {
        lemma_no_next_without_session(state, frames.drop_last());
        assert(!frames[frames.len() - 1].generate);
    }
}

/// An idle session stays idle: while the operator clicks neither the run
/// nor the single-step button, a panel that does not run continuously sends
/// no `Next`, however many frames are rendered.
pub proof fn lemma_idle_frames_send_nothing(state: PanelState, frames: Seq<Frame>)
    requires
        !runs(state.phase),
        forall|i: int|
            0 <= i < frames.len() ==> !(#[trigger] frames[i]).run && !frames[i].next,
    ensures
        !runs(after_frames(state, frames).phase),
        next_sent(state, frames) == 0,
    decreases frames.len(),
{
    if frames.len() > 0 {
        lemma_idle_frames_send_nothing(state, frames.drop_last());
        assert(!frames[frames.len() - 1].run && !frames[frames.len() - 1].next);
    }
}

/// A session that runs continuously keeps at most one step in flight: no
/// `Next` is sent while the figure of an earlier one has not been observed.
pub proof fn lemma_one_step_in_flight(sent: u64, frame: Frame)
    requires
        sent > frame.observed,
    ensures
        !sends_next(Phase::Active { run: true, sent }, frame),
        !control_actions(Phase::Active { run: true, sent }, frame).send_next,
{
}

/// `Quit` is sent exactly when a frame ends a session, and the panel is
/// without a session afterwards.
pub proof fn lemma_quit_ends_session(state: PanelState, frame: Frame)
    ensures
        frame_actions(state, frame).send_quit <==> state.phase is Active && frame.quit,
        frame_actions(state, frame).send_quit ==> after_frame(state, frame).phase is NoSession,
        state.phase is Active && after_frame(state, frame).phase is NoSession ==> frame_actions(
            state,
            frame,
        ).send_quit,
{
}

} // verus!
