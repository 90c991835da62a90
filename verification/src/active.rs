//! A running session, as a state machine.
//!
//! The session reads frames from the network and commands from the frontend, hands them to the
//! protocol stage, and carries out what the stage wants done. All of that work happens outside:
//! an [`ActiveSession`] is told what happened and answers with the next thing to do.
use crate::clipboard::ClipboardBackendMsg;
use crate::controller::{InputEvent, SessionCommand};
use crate::events::{notify_clipboard_failure, DirtyRect, DisconnectReason, SessionEvent};
use crate::profiles::Resolution;
use crate::stage::{
    CliprdrOutcome, CliprdrRequest, Negotiated, Region, StageOutput, Termination,
};
use vstd::prelude::*;

verus! {

use crate::clipboard::ClipboardBackendMsgView;
use crate::events::{DisconnectReasonView, SessionEventView};
use crate::stage::{CliprdrOutcomeView, StageOutputView, TerminationView, outputs_view};

/// What a complete deactivation-reactivation sequence led to.
#[derive(Debug, Clone, Copy, PartialEq, Eq, Structural)]
pub struct Reactivation {
    /// The new size of the desktop.
    pub size: Resolution,
    /// What the stage has to go on with.
    pub negotiated: Negotiated,
}

/// How far a deactivation-reactivation sequence came in one step.
#[derive(Debug, PartialEq, Eq)]
pub struct ActivationProgress {
    /// What to send to the server.
    pub response: Option<Vec<u8>>,
    /// What the sequence led to, if it is complete.
    pub finalized: Option<Reactivation>,
}

/// Something that happened to a running session.
pub enum ActiveEvent {
    /// The cancellation flag changed.
    Cancelled,
    /// A frame was read, or the connection failed.
    FrameRead(Result<(), String>),
    /// The frame was decoded, or could not be.
    Decoded(Result<Vec<StageOutput>, String>),
    /// A command arrived, or the frontend dropped its handle.
    Command(Option<SessionCommand>),
    /// A discrete transition arrived, or their queue was closed.
    EssentialCommand(Option<SessionCommand>),
    /// The clipboard generation changed, or can no longer change.
    ClipboardChanged(Result<(), ()>),
    /// The pointer position changed, or can no longer change.
    PointerChanged(Result<Option<InputEvent>, ()>),
    /// The clipboard channel asks for something, or is gone.
    ClipboardMessage(Option<ClipboardBackendMsg>),
    /// It is time to let the clipboard channel clean up.
    CleanupTick,
    /// The input was encoded, or could not be.
    InputEncoded(Result<Vec<StageOutput>, String>),
    /// The shutdown request was encoded, or could not be.
    ShutdownEncoded(Result<Vec<StageOutput>, String>),
    /// The clipboard channel answered.
    CliprdrDone(CliprdrOutcome),
    /// The bytes were written, or could not be.
    Written(bool),
    /// The work is done.
    Done,
    /// The reactivation made a step, or failed.
    ActivationStepped(Result<ActivationProgress, String>),
}

/// What to do next in a running session.
#[derive(Debug, PartialEq, Eq)]
pub enum ActiveAction {
    /// Wait for the next event from outside.
    Wait,
    /// Decode the frame that was read.
    Decode,
    /// Encode this input.
    EncodeInput(InputEvent),
    /// Encode the key sequence of Ctrl+Alt+Del.
    EncodeCtrlAltDel,
    /// Encode the request to close the session.
    EncodeShutdown,
    /// Ask this of the clipboard channel.
    Cliprdr(CliprdrRequest),
    /// Write these bytes to the server.
    Write(Vec<u8>),
    /// Copy this part of the image to the framebuffer, and offer the event to the frontend.
    Repaint { rect: DirtyRect, event: SessionEvent },
    /// Read the next part of the reactivation.
    StepActivation,
    /// Start over with an image and a framebuffer of this size, hand the stage what was
    /// negotiated anew, and send the event.
    Resize { size: Resolution, negotiated: Option<Negotiated>, event: SessionEvent },
    /// Offer this event to the frontend; it is dropped where no room is left for it.
    Offer(SessionEvent),
    /// Send this event to the frontend, and wait for room.
    Send(SessionEvent),
    /// Send this event to the frontend, and stop.
    End(SessionEvent),
    /// Nothing: the event does not fit what the session is doing.
    Ignore,
}

/// What a running session is doing.
#[derive(Debug, Clone, Copy, PartialEq, Eq, Structural)]
pub enum ActivePhase {
    /// It waits for an event from outside.
    Waiting,
    Decoding,
    EncodingInput,
    EncodingShutdown,
    AskingCliprdr,
    Writing,
    /// It repaints, resizes, or sends an event.
    Acting,
    Reactivating,
    /// It answers the server within a reactivation.
    Answering(Option<Reactivation>),
    Ended,
}

/// A running session: what it is doing, and which outputs of the stage it has not handled yet.
pub struct ActiveSession {
    phase: ActivePhase,
    pending: Vec<StageOutput>,
}

/// The contents of an [`ActiveSession`].
pub ghost struct ActiveState {
    pub phase: ActivePhase,
    pub pending: Seq<StageOutputView>,
}

impl View for ActiveSession {
    type V = ActiveState;

    closed spec fn view(&self) -> ActiveState {
        ActiveState { phase: self.phase, pending: outputs_view(self.pending@) }
    }
}

/// The contents of an [`ActiveEvent`].
pub enum ActiveEventView {
    Cancelled,
    FrameRead(Result<(), Seq<char>>),
    Decoded(Result<Seq<StageOutputView>, Seq<char>>),
    Command(Option<SessionCommand>),
    EssentialCommand(Option<SessionCommand>),
    ClipboardChanged(Result<(), ()>),
    PointerChanged(Result<Option<InputEvent>, ()>),
    ClipboardMessage(Option<ClipboardBackendMsgView>),
    CleanupTick,
    InputEncoded(Result<Seq<StageOutputView>, Seq<char>>),
    ShutdownEncoded(Result<Seq<StageOutputView>, Seq<char>>),
    CliprdrDone(CliprdrOutcomeView),
    Written(bool),
    Done,
    ActivationStepped(Result<(Option<Seq<u8>>, Option<Reactivation>), Seq<char>>),
}

/// The contents of outputs, or of the error in words.
pub open spec fn outputs_result_view(r: Result<Vec<StageOutput>, String>) -> Result<
    Seq<StageOutputView>,
    Seq<char>,
> {
    match r {
        Ok(outputs) => Ok(outputs_view(outputs@)),
        Err(error) => Err(error@),
    }
}

impl View for ActiveEvent {
    type V = ActiveEventView;

    open spec fn view(&self) -> ActiveEventView {
        match self {
            ActiveEvent::Cancelled => ActiveEventView::Cancelled,
            ActiveEvent::FrameRead(Ok(())) => ActiveEventView::FrameRead(Ok(())),
            ActiveEvent::FrameRead(Err(error)) => ActiveEventView::FrameRead(Err(error@)),
            ActiveEvent::Decoded(r) => ActiveEventView::Decoded(outputs_result_view(*r)),
            ActiveEvent::Command(command) => ActiveEventView::Command(*command),
            ActiveEvent::EssentialCommand(command) => ActiveEventView::EssentialCommand(*command),
            ActiveEvent::ClipboardChanged(r) => ActiveEventView::ClipboardChanged(*r),
            ActiveEvent::PointerChanged(r) => ActiveEventView::PointerChanged(*r),
            ActiveEvent::ClipboardMessage(None) => ActiveEventView::ClipboardMessage(None),
            ActiveEvent::ClipboardMessage(Some(msg)) => ActiveEventView::ClipboardMessage(
                Some(msg@),
            ),
            ActiveEvent::CleanupTick => ActiveEventView::CleanupTick,
            ActiveEvent::InputEncoded(r) => ActiveEventView::InputEncoded(outputs_result_view(*r)),
            ActiveEvent::ShutdownEncoded(r) => ActiveEventView::ShutdownEncoded(
                outputs_result_view(*r),
            ),
            ActiveEvent::CliprdrDone(outcome) => ActiveEventView::CliprdrDone(outcome@),
            ActiveEvent::Written(ok) => ActiveEventView::Written(*ok),
            ActiveEvent::Done => ActiveEventView::Done,
            ActiveEvent::ActivationStepped(Ok(progress)) => ActiveEventView::ActivationStepped(
                Ok(
                    (
                        match progress.response {
                            Some(frame) => Some(frame@),
                            None => None,
                        },
                        progress.finalized,
                    ),
                ),
            ),
            ActiveEvent::ActivationStepped(Err(error)) => ActiveEventView::ActivationStepped(
                Err(error@),
            ),
        }
    }
}

/// The contents of a [`CliprdrRequest`].
pub enum CliprdrRequestView {
    AdvertiseText,
    FetchText,
    SubmitText(Seq<u8>),
    DriveTimeouts,
}

impl View for CliprdrRequest {
    type V = CliprdrRequestView;

    open spec fn view(&self) -> CliprdrRequestView {
        match self {
            CliprdrRequest::AdvertiseText => CliprdrRequestView::AdvertiseText,
            CliprdrRequest::FetchText => CliprdrRequestView::FetchText,
            CliprdrRequest::SubmitText(data) => CliprdrRequestView::SubmitText(data@),
            CliprdrRequest::DriveTimeouts => CliprdrRequestView::DriveTimeouts,
        }
    }
}

/// The contents of an [`ActiveAction`].
pub enum ActiveActionView {
    Wait,
    Decode,
    EncodeInput(InputEvent),
    EncodeCtrlAltDel,
    EncodeShutdown,
    Cliprdr(CliprdrRequestView),
    Write(Seq<u8>),
    Repaint { rect: DirtyRect, event: SessionEventView },
    StepActivation,
    Resize { size: Resolution, negotiated: Option<Negotiated>, event: SessionEventView },
    Offer(SessionEventView),
    Send(SessionEventView),
    End(SessionEventView),
    Ignore,
}

impl View for ActiveAction {
    type V = ActiveActionView;

    open spec fn view(&self) -> ActiveActionView {
        match self {
            ActiveAction::Wait => ActiveActionView::Wait,
            ActiveAction::Decode => ActiveActionView::Decode,
            ActiveAction::EncodeInput(event) => ActiveActionView::EncodeInput(*event),
            ActiveAction::EncodeCtrlAltDel => ActiveActionView::EncodeCtrlAltDel,
            ActiveAction::EncodeShutdown => ActiveActionView::EncodeShutdown,
            ActiveAction::Cliprdr(request) => ActiveActionView::Cliprdr(request@),
            ActiveAction::Write(frame) => ActiveActionView::Write(frame@),
            ActiveAction::Repaint { rect, event } => ActiveActionView::Repaint {
                rect: *rect,
                event: event@,
            },
            ActiveAction::StepActivation => ActiveActionView::StepActivation,
            ActiveAction::Resize { size, negotiated, event } => ActiveActionView::Resize {
                size: *size,
                negotiated: *negotiated,
                event: event@,
            },
            ActiveAction::Offer(event) => ActiveActionView::Offer(event@),
            ActiveAction::Send(event) => ActiveActionView::Send(event@),
            ActiveAction::End(event) => ActiveActionView::End(event@),
            ActiveAction::Ignore => ActiveActionView::Ignore,
        }
    }
}

/// How many pixels lie from `first` to `last`, both included: at least one, and as many as can
/// be counted.
pub open spec fn extent(first: u16, last: u16) -> u16 {
    if last < first {
        1
    } else if last - first + 1 > u16::MAX {
        u16::MAX
    } else {
        (last - first + 1) as u16
    }
}

/// The part of the framebuffer that a region of the image covers.
pub open spec fn dirty_rect(region: Region) -> DirtyRect {
    DirtyRect {
        x: region.left,
        y: region.top,
        width: extent(region.left, region.right),
        height: extent(region.top, region.bottom),
    }
}

/// Turns a region, whose edges belong to it, into a position and a size.
pub fn to_dirty_rect(region: &Region) -> (r: DirtyRect)
    ensures
        r == dirty_rect(*region),
{
    DirtyRect {
        x: region.left,
        y: region.top,
        width: region.right.saturating_sub(region.left).saturating_add(1),
        height: region.bottom.saturating_sub(region.top).saturating_add(1),
    }
}

/// Why a session ended that was terminated like this.
pub open spec fn termination_reason(termination: TerminationView) -> DisconnectReasonView {
    match termination {
        TerminationView::UserInitiated => DisconnectReasonView::UserInitiated,
        TerminationView::Other(description) => DisconnectReasonView::ConnectionLost(description),
    }
}

/// Turns a termination into the reason that the frontend gets.
pub fn disconnect_reason(termination: Termination) -> (r: DisconnectReason)
    ensures
        r@ == termination_reason(termination@),
{
    match termination {
        Termination::UserInitiated => DisconnectReason::UserInitiated,
        Termination::Other(description) => DisconnectReason::ConnectionLost(description),
    }
}

/// A session that does this and has no output left to handle.
pub open spec fn idle(phase: ActivePhase) -> ActiveState {
    ActiveState { phase, pending: Seq::empty() }
}

/// A session that ended for this reason.
pub open spec fn ended(reason: DisconnectReasonView) -> (ActiveState, ActiveActionView) {
    (idle(ActivePhase::Ended), ActiveActionView::End(SessionEventView::Disconnected(reason)))
}

/// A session that could not write to the server.
pub open spec fn write_failed() -> (ActiveState, ActiveActionView) {
    ended(DisconnectReasonView::ConnectionLost("falha ao enviar dados"@))
}

/// The outputs are handled in turn. Remote pointer shapes, multitransport requests and network
/// measurements need nothing done.
pub open spec fn proceed(pending: Seq<StageOutputView>) -> (ActiveState, ActiveActionView)
    decreases pending.len(),
{
    if pending.len() == 0 {
        (idle(ActivePhase::Waiting), ActiveActionView::Wait)
    } else {
        let rest = pending.skip(1);
        match pending[0] {
            StageOutputView::ResponseFrame(frame) => (
                ActiveState { phase: ActivePhase::Writing, pending: rest },
                ActiveActionView::Write(frame),
            ),
            StageOutputView::GraphicsUpdate(region) => (
                ActiveState { phase: ActivePhase::Acting, pending: rest },
                ActiveActionView::Repaint {
                    rect: dirty_rect(region),
                    event: SessionEventView::FramebufferUpdated { rect: dirty_rect(region) },
                },
            ),
            StageOutputView::DeactivateAll => (
                ActiveState { phase: ActivePhase::Reactivating, pending: rest },
                ActiveActionView::StepActivation,
            ),
            StageOutputView::Terminate(termination) => ended(termination_reason(termination)),
            _ => proceed(rest),
        }
    }
}

/// After a step of the reactivation was answered: the stage gets what was negotiated and the new
/// desktop is shown, or the next step is read.
pub open spec fn reactivated(
    pending: Seq<StageOutputView>,
    finalized: Option<Reactivation>,
) -> (ActiveState, ActiveActionView) {
    match finalized {
        Some(reactivation) => (
            ActiveState { phase: ActivePhase::Acting, pending },
            ActiveActionView::Resize {
                size: reactivation.size,
                negotiated: Some(reactivation.negotiated),
                event: SessionEventView::Connected {
                    width: reactivation.size.width,
                    height: reactivation.size.height,
                },
            },
        ),
        None => (
            ActiveState { phase: ActivePhase::Reactivating, pending },
            ActiveActionView::StepActivation,
        ),
    }
}

/// What a waiting session does with a command that carries input.
pub open spec fn encode(command: SessionCommand) -> (ActiveState, ActiveActionView) {
    match command {
        SessionCommand::Input(event) => (
            idle(ActivePhase::EncodingInput),
            ActiveActionView::EncodeInput(event),
        ),
        SessionCommand::CtrlAltDel => (
            idle(ActivePhase::EncodingInput),
            ActiveActionView::EncodeCtrlAltDel,
        ),
        SessionCommand::Disconnect => (
            idle(ActivePhase::EncodingShutdown),
            ActiveActionView::EncodeShutdown,
        ),
    }
}

/// A session that asks the clipboard channel for something.
pub open spec fn ask(request: CliprdrRequestView) -> (ActiveState, ActiveActionView) {
    (idle(ActivePhase::AskingCliprdr), ActiveActionView::Cliprdr(request))
}

/// What a waiting session does.
pub open spec fn from_waiting(event: ActiveEventView) -> Option<(ActiveState, ActiveActionView)> {
    match event {
        ActiveEventView::Cancelled => Some(ended(DisconnectReasonView::UserInitiated)),
        ActiveEventView::FrameRead(Ok(())) => Some(
            (idle(ActivePhase::Decoding), ActiveActionView::Decode),
        ),
        ActiveEventView::FrameRead(Err(error)) => Some(
            ended(DisconnectReasonView::ConnectionLost(error)),
        ),
        ActiveEventView::Command(None) => Some(ended(DisconnectReasonView::UserInitiated)),
        ActiveEventView::Command(Some(command)) => Some(encode(command)),
        ActiveEventView::EssentialCommand(Some(command)) => if command is Disconnect {
            Some(proceed(Seq::empty()))
        } else {
            Some(encode(command))
        },
        ActiveEventView::EssentialCommand(None) => Some(proceed(Seq::empty())),
        ActiveEventView::ClipboardChanged(Ok(())) => Some(ask(CliprdrRequestView::AdvertiseText)),
        ActiveEventView::ClipboardChanged(Err(())) => Some(proceed(Seq::empty())),
        ActiveEventView::PointerChanged(Ok(Some(position))) => Some(
            encode(SessionCommand::Input(position)),
        ),
        ActiveEventView::PointerChanged(_) => Some(proceed(Seq::empty())),
        ActiveEventView::ClipboardMessage(None) => Some(proceed(Seq::empty())),
        ActiveEventView::ClipboardMessage(Some(ClipboardBackendMsgView::InitiateCopy)) => Some(
            ask(CliprdrRequestView::AdvertiseText),
        ),
        ActiveEventView::ClipboardMessage(Some(ClipboardBackendMsgView::InitiatePaste)) => Some(
            ask(CliprdrRequestView::FetchText),
        ),
        ActiveEventView::ClipboardMessage(
            Some(ClipboardBackendMsgView::SendFormatData(data)),
        ) => Some(ask(CliprdrRequestView::SubmitText(data))),
        ActiveEventView::ClipboardMessage(
            Some(ClipboardBackendMsgView::TextReceived(text)),
        ) => Some(
            (
                idle(ActivePhase::Acting),
                ActiveActionView::Send(SessionEventView::ClipboardTextReceived(text)),
            ),
        ),
        ActiveEventView::CleanupTick => Some(ask(CliprdrRequestView::DriveTimeouts)),
        _ => None,
    }
}

/// What a session does that is busy, where the event is the answer that it waits for.
pub open spec fn from_busy(state: ActiveState, event: ActiveEventView) -> Option<
    (ActiveState, ActiveActionView),
> {
    match (state.phase, event) {
        (ActivePhase::Decoding, ActiveEventView::Decoded(Ok(outputs))) => Some(proceed(outputs)),
        (ActivePhase::Decoding, ActiveEventView::Decoded(Err(error))) => Some(
            ended(DisconnectReasonView::ConnectionLost(error)),
        ),
        (ActivePhase::EncodingInput, ActiveEventView::InputEncoded(Ok(outputs))) => Some(
            proceed(outputs),
        ),
        (ActivePhase::EncodingInput, ActiveEventView::InputEncoded(Err(_))) => Some(
            proceed(Seq::empty()),
        ),
        (ActivePhase::EncodingShutdown, ActiveEventView::ShutdownEncoded(Ok(outputs))) => Some(
            proceed(outputs),
        ),
        (ActivePhase::EncodingShutdown, ActiveEventView::ShutdownEncoded(Err(_))) => Some(
            ended(DisconnectReasonView::UserInitiated),
        ),
        (ActivePhase::AskingCliprdr, ActiveEventView::CliprdrDone(outcome)) => match outcome {
            CliprdrOutcomeView::Respond(frame) => Some(
                proceed(seq![StageOutputView::ResponseFrame(frame)]),
            ),
            CliprdrOutcomeView::Nothing => Some(proceed(Seq::empty())),
            CliprdrOutcomeView::Failed(detail) => Some(
                (
                    idle(ActivePhase::Acting),
                    ActiveActionView::Offer(
                        SessionEventView::FeatureUnavailable { feature: "clipboard"@, detail },
                    ),
                ),
            ),
        },
        (ActivePhase::Writing, ActiveEventView::Written(ok)) => Some(
            if ok {
                proceed(state.pending)
            } else {
                write_failed()
            },
        ),
        (ActivePhase::Acting, ActiveEventView::Done) => Some(proceed(state.pending)),
        (ActivePhase::Reactivating, ActiveEventView::ActivationStepped(Ok(progress))) => Some(
            match progress.0 {
                Some(frame) => (
                    ActiveState { phase: ActivePhase::Answering(progress.1), ..state },
                    ActiveActionView::Write(frame),
                ),
                None => reactivated(state.pending, progress.1),
            },
        ),
        (ActivePhase::Reactivating, ActiveEventView::ActivationStepped(Err(error))) => Some(
            ended(DisconnectReasonView::ConnectionLost(error)),
        ),
        (ActivePhase::Answering(finalized), ActiveEventView::Written(ok)) => Some(
            if ok {
                reactivated(state.pending, finalized)
            } else {
                write_failed()
            },
        ),
        _ => None,
    }
}

/// What a running session does when something happens. An event that does not fit what the
/// session is doing changes nothing.
pub open spec fn active_step(state: ActiveState, event: ActiveEventView) -> (
    ActiveState,
    ActiveActionView,
) {
    let next = if state.phase is Waiting {
        from_waiting(event)
    } else {
        from_busy(state, event)
    };
    match next {
        Some(next) => next,
        None => (state, ActiveActionView::Ignore),
    }
}

impl ActiveSession {
    /// Starts a session that shows a desktop of this size: the framebuffer takes that size, and
    /// the frontend is told.
    pub fn start(size: Resolution) -> (r: (ActiveSession, ActiveAction))
        ensures
            r.0@ == idle(ActivePhase::Acting),
            r.1@ == (ActiveActionView::Resize {
                size,
                negotiated: None,
                event: SessionEventView::Connected { width: size.width, height: size.height },
            }),
    {
        let session = ActiveSession { phase: ActivePhase::Acting, pending: Vec::new() };
        assert(session@.pending =~= Seq::empty());
        (
            session,
            ActiveAction::Resize {
                size,
                negotiated: None,
                event: SessionEvent::Connected { width: size.width, height: size.height },
            },
        )
    }

    /// Whether the session is over.
    pub fn is_ended(&self) -> (r: bool)
        ensures
            r == (self@.phase is Ended),
    {
        match self.phase {
            ActivePhase::Ended => true,
            _ => false,
        }
    }

    /// Goes on to this phase with no output left to handle.
    fn go(&mut self, phase: ActivePhase)
        ensures
            final(self)@ == idle(phase),
    {
        self.phase = phase;
        self.pending = Vec::new();
        assert(self@.pending =~= Seq::empty());
    }

    fn end(&mut self, reason: DisconnectReason) -> (r: ActiveAction)
        ensures
            (final(self)@, r@) == ended(reason@),
    {
        self.go(ActivePhase::Ended);
        ActiveAction::End(SessionEvent::Disconnected(reason))
    }

    /// Handles the pending outputs up to the first that needs something done.
    fn proceed(&mut self) -> (r: ActiveAction)
        ensures
            (final(self)@, r@) == proceed(old(self)@.pending),
    {
        while self.pending.len() > 0
            invariant
                proceed(self@.pending) == proceed(old(self)@.pending),
            decreases self.pending.len(),
        {
            let ghost before = self.pending@;
            let output = self.pending.remove(0);
            assert(outputs_view(before)[0] == output@);
            assert(outputs_view(self.pending@) =~= outputs_view(before).skip(1));
            match output {
                StageOutput::ResponseFrame(frame) => {
                    self.phase = ActivePhase::Writing;
                    return ActiveAction::Write(frame);
                },
                StageOutput::GraphicsUpdate(region) => {
                    let rect = to_dirty_rect(&region);
                    self.phase = ActivePhase::Acting;
                    return ActiveAction::Repaint {
                        rect,
                        event: SessionEvent::FramebufferUpdated { rect },
                    };
                },
                StageOutput::DeactivateAll => {
                    self.phase = ActivePhase::Reactivating;
                    return ActiveAction::StepActivation;
                },
                StageOutput::Terminate(termination) => {
                    return self.end(disconnect_reason(termination));
                },
                _ => {},
            }
        }
        assert(self@.pending =~= Seq::empty());
        self.phase = ActivePhase::Waiting;
        ActiveAction::Wait
    }

    /// Handles these outputs.
    fn handle(&mut self, outputs: Vec<StageOutput>) -> (r: ActiveAction)
        ensures
            (final(self)@, r@) == proceed(outputs_view(outputs@)),
    {
        self.pending = outputs;
        self.proceed()
    }

    fn encode(&mut self, command: SessionCommand) -> (r: ActiveAction)
        ensures
            (final(self)@, r@) == encode(command),
    {
        match command {
            SessionCommand::Input(event) => {
                self.go(ActivePhase::EncodingInput);
                ActiveAction::EncodeInput(event)
            },
            SessionCommand::CtrlAltDel => {
                self.go(ActivePhase::EncodingInput);
                ActiveAction::EncodeCtrlAltDel
            },
            SessionCommand::Disconnect => {
                self.go(ActivePhase::EncodingShutdown);
                ActiveAction::EncodeShutdown
            },
        }
    }

    fn ask(&mut self, request: CliprdrRequest) -> (r: ActiveAction)
        ensures
            (final(self)@, r@) == ask(request@),
    {
        self.go(ActivePhase::AskingCliprdr);
        ActiveAction::Cliprdr(request)
    }

    fn reactivated(&mut self, finalized: Option<Reactivation>) -> (r: ActiveAction)
        ensures
            (final(self)@, r@) == reactivated(old(self)@.pending, finalized),
    {
        match finalized {
            Some(reactivation) => {
                let size = reactivation.size;
                self.phase = ActivePhase::Acting;
                ActiveAction::Resize {
                    size,
                    negotiated: Some(reactivation.negotiated),
                    event: SessionEvent::Connected { width: size.width, height: size.height },
                }
            },
            None => {
                self.phase = ActivePhase::Reactivating;
                ActiveAction::StepActivation
            },
        }
    }

    /// What a waiting session does.
    fn step_waiting(&mut self, event: ActiveEvent) -> (r: ActiveAction)
        requires
            old(self)@.phase is Waiting,
        ensures
            (final(self)@, r@) == active_step(old(self)@, event@),
    {
        match event {
            ActiveEvent::Cancelled => self.end(DisconnectReason::UserInitiated),
            ActiveEvent::FrameRead(Ok(())) => {
                self.go(ActivePhase::Decoding);
                ActiveAction::Decode
            },
            ActiveEvent::FrameRead(Err(error)) => self.end(
                DisconnectReason::ConnectionLost(error),
            ),
            ActiveEvent::Command(None) => self.end(DisconnectReason::UserInitiated),
            ActiveEvent::Command(Some(command)) => self.encode(command),
            ActiveEvent::EssentialCommand(Some(SessionCommand::Disconnect)) => self.handle(
                Vec::new(),
            ),
            ActiveEvent::EssentialCommand(Some(command)) => self.encode(command),
            ActiveEvent::EssentialCommand(None) => self.handle(Vec::new()),
            ActiveEvent::ClipboardChanged(Ok(())) => self.ask(CliprdrRequest::AdvertiseText),
            ActiveEvent::ClipboardChanged(Err(())) => self.handle(Vec::new()),
            ActiveEvent::PointerChanged(Ok(Some(position))) => self.encode(
                SessionCommand::Input(position),
            ),
            ActiveEvent::PointerChanged(_) => self.handle(Vec::new()),
            ActiveEvent::ClipboardMessage(None) => self.handle(Vec::new()),
            ActiveEvent::ClipboardMessage(Some(msg)) => match msg {
                ClipboardBackendMsg::InitiateCopy => self.ask(CliprdrRequest::AdvertiseText),
                ClipboardBackendMsg::InitiatePaste => self.ask(CliprdrRequest::FetchText),
                ClipboardBackendMsg::SendFormatData(data) => self.ask(
                    CliprdrRequest::SubmitText(data),
                ),
                ClipboardBackendMsg::TextReceived(text) => {
                    self.go(ActivePhase::Acting);
                    ActiveAction::Send(SessionEvent::ClipboardTextReceived(text))
                },
            },
            ActiveEvent::CleanupTick => self.ask(CliprdrRequest::DriveTimeouts),
            _ => ActiveAction::Ignore,
        }
    }

    /// What a busy session does.
    fn step_busy(&mut self, event: ActiveEvent) -> (r: ActiveAction)
        requires
            old(self)@.phase !is Waiting,
        ensures
            (final(self)@, r@) == active_step(old(self)@, event@),
    {
        match (self.phase, event) {
            (ActivePhase::Decoding, ActiveEvent::Decoded(Ok(outputs))) => self.handle(outputs),
            (ActivePhase::Decoding, ActiveEvent::Decoded(Err(error))) => self.end(
                DisconnectReason::ConnectionLost(error),
            ),
            (ActivePhase::EncodingInput, ActiveEvent::InputEncoded(Ok(outputs))) => self.handle(
                outputs,
            ),
            (ActivePhase::EncodingInput, ActiveEvent::InputEncoded(Err(_))) => self.handle(
                Vec::new(),
            ),
            (
                ActivePhase::EncodingShutdown,
                ActiveEvent::ShutdownEncoded(Ok(outputs)),
            ) => self.handle(outputs),
            (ActivePhase::EncodingShutdown, ActiveEvent::ShutdownEncoded(Err(_))) => self.end(
                DisconnectReason::UserInitiated,
            ),
            (ActivePhase::AskingCliprdr, ActiveEvent::CliprdrDone(outcome)) => match outcome {
                CliprdrOutcome::Respond(frame) => {
                    let mut outputs: Vec<StageOutput> = Vec::new();
                    outputs.push(StageOutput::ResponseFrame(frame));
                    assert(outputs_view(outputs@) =~= seq![StageOutputView::ResponseFrame(frame@)]);
                    self.handle(outputs)
                },
                CliprdrOutcome::Nothing => self.handle(Vec::new()),
                CliprdrOutcome::Failed(detail) => {
                    self.go(ActivePhase::Acting);
                    ActiveAction::Offer(notify_clipboard_failure(detail.as_str()))
                },
            },
            (ActivePhase::Writing, ActiveEvent::Written(ok)) => {
                if ok {
                    self.proceed()
                } else {
                    self.end(DisconnectReason::ConnectionLost("falha ao enviar dados".to_owned()))
                }
            },
            (ActivePhase::Acting, ActiveEvent::Done) => self.proceed(),
            (ActivePhase::Reactivating, ActiveEvent::ActivationStepped(Ok(progress))) => {
                match progress.response {
                    Some(frame) => {
                        self.phase = ActivePhase::Answering(progress.finalized);
                        ActiveAction::Write(frame)
                    },
                    None => self.reactivated(progress.finalized),
                }
            },
            (ActivePhase::Reactivating, ActiveEvent::ActivationStepped(Err(error))) => self.end(
                DisconnectReason::ConnectionLost(error),
            ),
            (ActivePhase::Answering(finalized), ActiveEvent::Written(ok)) => {
                if ok {
                    self.reactivated(finalized)
                } else {
                    self.end(DisconnectReason::ConnectionLost("falha ao enviar dados".to_owned()))
                }
            },
            _ => ActiveAction::Ignore,
        }
    }

    /// Tells the session what happened, and gets the next thing to do.
    pub fn step(&mut self, event: ActiveEvent) -> (r: ActiveAction)
        ensures
            (final(self)@, r@) == active_step(old(self)@, event@),
    {
        match self.phase {
            ActivePhase::Waiting => self.step_waiting(event),
            _ => self.step_busy(event),
        }
    }
}

/// The events that an action sends to the frontend.
pub open spec fn emitted(action: ActiveActionView) -> Seq<SessionEventView> {
    match action {
        ActiveActionView::Repaint { rect, event } => seq![event],
        ActiveActionView::Resize { size, negotiated, event } => seq![event],
        ActiveActionView::Offer(event) => seq![event],
        ActiveActionView::Send(event) => seq![event],
        ActiveActionView::End(event) => seq![event],
        _ => Seq::empty(),
    }
}

/// The session after these events happened in turn, and what the frontend was sent meanwhile.
pub open spec fn active_run(state: ActiveState, events: Seq<ActiveEventView>) -> (
    ActiveState,
    Seq<SessionEventView>,
)
    decreases events.len(),
{
    if events.len() == 0 {
        (state, Seq::empty())
    } else {
        let (before, sent) = active_run(state, events.drop_last());
        let (after, action) = active_step(before, events.last());
        (after, sent + emitted(action))
    }
}

/// Whether these events tell of a disconnection just where the session is over, and then once
/// and last.
pub open spec fn tells_of_end(sent: Seq<SessionEventView>, over: bool) -> bool {
    &&& over ==> sent.len() > 0
    &&& forall|i: int|
        0 <= i < sent.len() ==> ((#[trigger] sent[i]) is Disconnected <==> over && i == sent.len()
            - 1)
}

proof fn lemma_proceed_ends(pending: Seq<StageOutputView>)
    ensures
        proceed(pending).0.phase is Ended <==> proceed(pending).1 is End,
        tells_of_end(emitted(proceed(pending).1), proceed(pending).0.phase is Ended),
    decreases pending.len(),
{
    if pending.len() > 0 {
        lemma_proceed_ends(pending.skip(1));
    }
}

proof fn lemma_step_ends(state: ActiveState, event: ActiveEventView)
    ensures
        state.phase is Ended ==> active_step(state, event) == (state, ActiveActionView::Ignore),
        state.phase !is Ended ==> tells_of_end(
            emitted(active_step(state, event).1),
            active_step(state, event).0.phase is Ended,
        ),
{
    lemma_proceed_ends(state.pending);
    lemma_proceed_ends(Seq::empty());
    match event {
        ActiveEventView::Decoded(Ok(outputs)) => lemma_proceed_ends(outputs),
        ActiveEventView::InputEncoded(Ok(outputs)) => lemma_proceed_ends(outputs),
        ActiveEventView::ShutdownEncoded(Ok(outputs)) => lemma_proceed_ends(outputs),
        ActiveEventView::CliprdrDone(CliprdrOutcomeView::Respond(frame)) => lemma_proceed_ends(
            seq![StageOutputView::ResponseFrame(frame)],
        ),
        _ => {},
    }
}

/// Law: whatever happens to a running session, the frontend is told of the disconnection once,
/// when the session ends, and of nothing after it.
pub proof fn law_active_session_tells_of_its_end(state: ActiveState, events: Seq<ActiveEventView>)
    requires
        state.phase !is Ended,
    ensures
        tells_of_end(active_run(state, events).1, active_run(state, events).0.phase is Ended),
    decreases events.len(),
{
    if events.len() > 0 {
        let (before, sent) = active_run(state, events.drop_last());
        law_active_session_tells_of_its_end(state, events.drop_last());
        lemma_step_ends(before, events.last());
        let (after, action) = active_step(before, events.last());
        if before.phase is Ended {
            assert(sent + emitted(action) =~= sent);
        }
    }
}

/// Law: a session that is over does nothing more.
pub proof fn law_ended_session_stays_ended(state: ActiveState, events: Seq<ActiveEventView>)
    requires
        state.phase is Ended,
    ensures
        active_run(state, events) == (state, Seq::<SessionEventView>::empty()),
    decreases events.len(),
{
    if events.len() > 0 {
        law_ended_session_stays_ended(state, events.drop_last());
        lemma_step_ends(state, events.last());
    }
}

/// Handling outputs uses up at least one of them.
pub proof fn lemma_proceed_consumes(pending: Seq<StageOutputView>)
    ensures
        proceed(pending).0.pending.len() <= pending.len(),
        pending.len() > 0 ==> proceed(pending).0.pending.len() < pending.len(),
        pending.len() == 0 ==> proceed(pending).1 is Wait,
        proceed(pending).1 is Write ==> proceed(pending).0.phase is Writing,
        proceed(pending).1 is Repaint ==> proceed(pending).0.phase is Acting,
    decreases pending.len(),
{
    if pending.len() > 0 {
        lemma_proceed_consumes(pending.skip(1));
    }
}

/// The bytes that are written from here on, where every write succeeds and every piece of work
/// gets done, up to the next wait, reactivation or end.
pub open spec fn written(state: ActiveState, action: ActiveActionView) -> Seq<Seq<u8>>
    decreases
            state.pending.len(),
            if action is Write || action is Repaint {
                1int
            } else {
                0int
            },
{
    match action {
        ActiveActionView::Write(frame) => if state.phase is Writing {
            proof {
                lemma_proceed_consumes(state.pending);
            }
            let (next, then) = active_step(state, ActiveEventView::Written(true));
            seq![frame] + written(next, then)
        } else {
            seq![frame]
        },
        ActiveActionView::Repaint { rect, event } => if state.phase is Acting {
            proof {
                lemma_proceed_consumes(state.pending);
            }
            let (next, then) = active_step(state, ActiveEventView::Done);
            written(next, then)
        } else {
            Seq::empty()
        },
        _ => Seq::empty(),
    }
}

/// The frames among these outputs, up to the first reactivation or termination.
pub open spec fn frames(outputs: Seq<StageOutputView>) -> Seq<Seq<u8>>
    decreases outputs.len(),
{
    if outputs.len() == 0 {
        Seq::empty()
    } else {
        match outputs[0] {
            StageOutputView::ResponseFrame(frame) => seq![frame] + frames(outputs.skip(1)),
            StageOutputView::DeactivateAll => Seq::empty(),
            StageOutputView::Terminate(_) => Seq::empty(),
            _ => frames(outputs.skip(1)),
        }
    }
}

proof fn lemma_frames_are_written(outputs: Seq<StageOutputView>)
    ensures
        written(proceed(outputs).0, proceed(outputs).1) == frames(outputs),
    decreases outputs.len(),
{
    if outputs.len() > 0 {
        lemma_frames_are_written(outputs.skip(1));
        lemma_proceed_consumes(outputs);
    }
}

/// Whether these are the outputs that a session handles after the event: the ones that the event
/// brings, or the ones that were left when the session repainted, sent an event, or showed
/// a new desktop.
pub open spec fn answers(
    state: ActiveState,
    event: ActiveEventView,
    outputs: Seq<StageOutputView>,
) -> bool {
    ||| state.phase is Decoding && event == ActiveEventView::Decoded(Ok(outputs))
    ||| state.phase is EncodingInput && event == ActiveEventView::InputEncoded(Ok(outputs))
    ||| state.phase is EncodingShutdown && event == ActiveEventView::ShutdownEncoded(Ok(outputs))
    ||| {
        &&& state.phase is AskingCliprdr
        &&& event matches ActiveEventView::CliprdrDone(CliprdrOutcomeView::Respond(frame))
        &&& outputs == seq![StageOutputView::ResponseFrame(frame)]
    }
    ||| state.phase is Acting && event is Done && outputs == state.pending
}

/// Law: as long as the connection holds, the frames that the stage wants sent are written, each
/// once and in the order in which the stage handed them out, up to the next reactivation or
/// termination. That holds of the answers to a frame of the server, to an input, to the wish to
/// disconnect and to the clipboard channel, and, after a reactivation has shown the new desktop,
/// of the frames that were left when it began.
pub proof fn law_frames_are_written_in_order(
    state: ActiveState,
    event: ActiveEventView,
    outputs: Seq<StageOutputView>,
)
    requires
        answers(state, event, outputs),
    ensures
        ({
            let (next, action) = active_step(state, event);
            written(next, action) == frames(outputs)
        }),
{
    lemma_frames_are_written(outputs);
}

/// Law: nothing that goes wrong with the clipboard, and no input that cannot be encoded, ends
/// a session.
pub proof fn law_failures_beside_the_connection_are_not_fatal(
    state: ActiveState,
    outcome: CliprdrOutcomeView,
    error: Seq<char>,
)
    requires
        state.phase !is Ended,
    ensures
        active_step(state, ActiveEventView::CliprdrDone(outcome)).0.phase !is Ended,
        active_step(state, ActiveEventView::InputEncoded(Err(error))).0.phase !is Ended,
{
    if let CliprdrOutcomeView::Respond(frame) = outcome {
        assert(seq![StageOutputView::ResponseFrame(frame)][0] == StageOutputView::ResponseFrame(
            frame,
        ));
    }
}

/// Law: a reactivation keeps the outputs that come after it, hands the stage just what was
/// negotiated, shows the desktop in its new size, tells the frontend so, and then goes on with
/// those outputs. It does so whether the last step has an answer to the server or not.
pub proof fn law_reactivation_goes_on(
    state: ActiveState,
    response: Option<Seq<u8>>,
    reactivation: Reactivation,
)
    requires
        state.phase is Reactivating,
    ensures
        ({
            let stepped = ActiveEventView::ActivationStepped(Ok((response, Some(reactivation))));
            let (next, action) = active_step(state, stepped);
            let (shown, resize) = match response {
                Some(_) => active_step(next, ActiveEventView::Written(true)),
                None => (next, action),
            };
            &&& response matches Some(frame) ==> action == ActiveActionView::Write(frame)
            &&& resize == ActiveActionView::Resize {
                size: reactivation.size,
                negotiated: Some(reactivation.negotiated),
                event: SessionEventView::Connected {
                    width: reactivation.size.width,
                    height: reactivation.size.height,
                },
            }
            &&& shown == ActiveState { phase: ActivePhase::Acting, pending: state.pending }
            &&& active_step(shown, ActiveEventView::Done) == proceed(state.pending)
        }),
{
}

/// Whether an event is dropped where the frontend has no room for it.
pub open spec fn droppable(event: SessionEventView) -> bool {
    event is FramebufferUpdated || event is FeatureUnavailable
}

proof fn lemma_proceed_drops(pending: Seq<StageOutputView>)
    ensures
        ({
            let action = proceed(pending).1;
            &&& action matches ActiveActionView::Repaint { rect, event } ==> droppable(event)
            &&& action matches ActiveActionView::End(event) ==> !droppable(event)
            &&& !(action is Resize || action is Offer || action is Send)
        }),
    decreases pending.len(),
{
    if pending.len() > 0 {
        lemma_proceed_drops(pending.skip(1));
    }
}

/// Law: only repaints and notices of a missing feature are offered to the frontend, and may be
/// dropped. Everything else is sent, and waits for room.
pub proof fn law_only_repaints_and_notices_are_dropped(state: ActiveState, event: ActiveEventView)
    ensures
        ({
            let action = active_step(state, event).1;
            &&& action matches ActiveActionView::Repaint { rect, event } ==> droppable(event)
            &&& action matches ActiveActionView::Offer(event) ==> droppable(event)
            &&& action matches ActiveActionView::Resize { size, negotiated, event } ==> !droppable(
                event,
            )
            &&& action matches ActiveActionView::Send(event) ==> !droppable(event)
            &&& action matches ActiveActionView::End(event) ==> !droppable(event)
        }),
{
    lemma_proceed_drops(state.pending);
    lemma_proceed_drops(Seq::empty());
    match event {
        ActiveEventView::Decoded(Ok(outputs)) => lemma_proceed_drops(outputs),
        ActiveEventView::InputEncoded(Ok(outputs)) => lemma_proceed_drops(outputs),
        ActiveEventView::ShutdownEncoded(Ok(outputs)) => lemma_proceed_drops(outputs),
        ActiveEventView::CliprdrDone(CliprdrOutcomeView::Respond(frame)) => lemma_proceed_drops(
            seq![StageOutputView::ResponseFrame(frame)],
        ),
        _ => {},
    }
}

/// Law: the rectangle of a region begins at its left and top edge and ends at its right and bottom
/// edge, so that a pixel lies in the rectangle just where it lies in the region. A region that is
/// the wrong way round is one pixel wide or high, and one that has all the pixels there are lacks
/// the last.
pub proof fn law_rectangle_covers_the_region(region: Region, x: int, y: int)
    ensures
        ({
            let rect = dirty_rect(region);
            let (left, top) = (region.left as int, region.top as int);
            let (right, bottom) = (region.right as int, region.bottom as int);
            &&& rect.x == left && rect.y == top
            &&& left <= right && right - left < 0xFFFF ==> rect.x + rect.width - 1 == right
            &&& top <= bottom && bottom - top < 0xFFFF ==> rect.y + rect.height - 1 == bottom
            &&& left <= right && right - left < 0xFFFF ==> (rect.x <= x < rect.x + rect.width
                <==> left <= x <= right)
            &&& top <= bottom && bottom - top < 0xFFFF ==> (rect.y <= y < rect.y + rect.height
                <==> top <= y <= bottom)
            &&& left > right ==> rect.width == 1
            &&& top > bottom ==> rect.height == 1
            &&& right - left == 0xFFFF ==> rect.width == 0xFFFF
            &&& bottom - top == 0xFFFF ==> rect.height == 0xFFFF
        }),
{
}

/// Law: every input that reaches a waiting session, by whichever channel, is encoded as it is, and
/// so is Ctrl+Alt+Del. Encoded input is all that the session then waits for.
pub proof fn law_input_is_encoded_as_it_is(state: ActiveState, input: InputEvent)
    requires
        state.phase is Waiting,
    ensures
        ({
            let encoding = ActiveState { phase: ActivePhase::EncodingInput, pending: Seq::empty() };
            let (by_input, by_keys) = (
                (encoding, ActiveActionView::EncodeInput(input)),
                (encoding, ActiveActionView::EncodeCtrlAltDel),
            );
            let command = SessionCommand::Input(input);
            let keys = SessionCommand::CtrlAltDel;
            &&& active_step(state, ActiveEventView::EssentialCommand(Some(command))) == by_input
            &&& active_step(state, ActiveEventView::Command(Some(command))) == by_input
            &&& active_step(state, ActiveEventView::PointerChanged(Ok(Some(input)))) == by_input
            &&& active_step(state, ActiveEventView::EssentialCommand(Some(keys))) == by_keys
            &&& active_step(state, ActiveEventView::Command(Some(keys))) == by_keys
        }),
{
}

/// The actions that answer these events in turn.
pub open spec fn run_actions(state: ActiveState, events: Seq<ActiveEventView>) -> Seq<
    ActiveActionView,
>
    decreases events.len(),
{
    if events.len() == 0 {
        Seq::empty()
    } else {
        let before = active_run(state, events.drop_last()).0;
        run_actions(state, events.drop_last()).push(active_step(before, events.last()).1)
    }
}

/// The inputs that these actions have encoded.
pub open spec fn inputs_encoded(actions: Seq<ActiveActionView>) -> Seq<InputEvent>
    decreases actions.len(),
{
    if actions.len() == 0 {
        Seq::empty()
    } else {
        let before = inputs_encoded(actions.drop_last());
        match actions.last() {
            ActiveActionView::EncodeInput(input) => before.push(input),
            _ => before,
        }
    }
}

/// The inputs that these events bring to a session that waits for them.
pub open spec fn inputs_taken(state: ActiveState, events: Seq<ActiveEventView>) -> Seq<InputEvent>
    decreases events.len(),
{
    if events.len() == 0 {
        Seq::empty()
    } else {
        let before = inputs_taken(state, events.drop_last());
        match (active_run(state, events.drop_last()).0.phase, events.last()) {
            (
                ActivePhase::Waiting,
                ActiveEventView::EssentialCommand(Some(SessionCommand::Input(input))),
            ) => before.push(input),
            (
                ActivePhase::Waiting,
                ActiveEventView::Command(Some(SessionCommand::Input(input))),
            ) => before.push(input),
            (
                ActivePhase::Waiting,
                ActiveEventView::PointerChanged(Ok(Some(input))),
            ) => before.push(input),
            _ => before,
        }
    }
}

proof fn lemma_proceed_encodes_nothing(pending: Seq<StageOutputView>)
    ensures
        proceed(pending).1 !is EncodeInput,
    decreases pending.len(),
{
    if pending.len() > 0 {
        lemma_proceed_encodes_nothing(pending.skip(1));
    }
}

proof fn lemma_step_encodes(state: ActiveState, event: ActiveEventView)
    requires
        active_step(state, event).1 is EncodeInput,
    ensures
        state.phase is Waiting,
        ({
            let input = active_step(state, event).1->EncodeInput_0;
            ||| event == ActiveEventView::EssentialCommand(Some(SessionCommand::Input(input)))
            ||| event == ActiveEventView::Command(Some(SessionCommand::Input(input)))
            ||| event == ActiveEventView::PointerChanged(Ok(Some(input)))
        }),
{
    lemma_proceed_encodes_nothing(state.pending);
    lemma_proceed_encodes_nothing(Seq::empty());
    match event {
        ActiveEventView::Decoded(Ok(outputs)) => lemma_proceed_encodes_nothing(outputs),
        ActiveEventView::InputEncoded(Ok(outputs)) => lemma_proceed_encodes_nothing(outputs),
        ActiveEventView::ShutdownEncoded(Ok(outputs)) => lemma_proceed_encodes_nothing(outputs),
        ActiveEventView::CliprdrDone(
            CliprdrOutcomeView::Respond(frame),
        ) => lemma_proceed_encodes_nothing(seq![StageOutputView::ResponseFrame(frame)]),
        _ => {},
    }
}

/// Law: over a whole run the inputs that are encoded are just those that were taken from the
/// channels, in that order, none lost, none altered and none made up.
pub proof fn law_no_input_is_lost(state: ActiveState, events: Seq<ActiveEventView>)
    ensures
        inputs_encoded(run_actions(state, events)) == inputs_taken(state, events),
    decreases events.len(),
{
    if events.len() > 0 {
        let before = events.drop_last();
        let (at, event) = (active_run(state, before).0, events.last());
        law_no_input_is_lost(state, before);
        let action = active_step(at, event).1;
        assert(run_actions(state, events).drop_last() =~= run_actions(state, before));
        if action is EncodeInput {
            lemma_step_encodes(at, event);
        }
    }
}

/// Law: a run goes on, event by event, from where it was, and the frontend is sent what each
/// action holds for it.
pub proof fn law_session_runs_step_by_step(
    state: ActiveState,
    events: Seq<ActiveEventView>,
    event: ActiveEventView,
    sent: SessionEventView,
    rect: DirtyRect,
    size: Resolution,
    negotiated: Option<Negotiated>,
)
    ensures
        active_run(state, Seq::empty()) == (state, Seq::<SessionEventView>::empty()),
        ({
            let (before, told) = active_run(state, events);
            let (after, action) = active_step(before, event);
            active_run(state, events.push(event)) == (after, told + emitted(action))
        }),
        emitted(ActiveActionView::Repaint { rect, event: sent }) == seq![sent],
        emitted(ActiveActionView::Resize { size, negotiated, event: sent }) == seq![sent],
        emitted(ActiveActionView::Offer(sent)) == seq![sent],
        emitted(ActiveActionView::Send(sent)) == seq![sent],
        emitted(ActiveActionView::End(sent)) == seq![sent],
{
    assert(events.push(event).drop_last() =~= events);
}

/// Law: a frame that was read is decoded. A read that fails, a frame that cannot be decoded and
/// a reactivation that fails end the session with their error, word for word, and a write that
/// fails with the word that nothing could be sent.
pub proof fn law_connection_failures_are_reported(state: ActiveState, error: Seq<char>)
    ensures
        ({
            let ended = (
                ActiveState { phase: ActivePhase::Ended, pending: Seq::empty() },
                ActiveActionView::End(
                    SessionEventView::Disconnected(DisconnectReasonView::ConnectionLost(error)),
                ),
            );
            let unsent = (
                ActiveState { phase: ActivePhase::Ended, pending: Seq::empty() },
                ActiveActionView::End(
                    SessionEventView::Disconnected(
                        DisconnectReasonView::ConnectionLost("falha ao enviar dados"@),
                    ),
                ),
            );
            &&& state.phase is Waiting ==> active_step(state, ActiveEventView::FrameRead(Ok(())))
                == (
                ActiveState { phase: ActivePhase::Decoding, pending: Seq::empty() },
                ActiveActionView::Decode,
            )
            &&& state.phase is Waiting ==> active_step(
                state,
                ActiveEventView::FrameRead(Err(error)),
            ) == ended
            &&& state.phase is Decoding ==> active_step(
                state,
                ActiveEventView::Decoded(Err(error)),
            ) == ended
            &&& state.phase is Reactivating ==> active_step(
                state,
                ActiveEventView::ActivationStepped(Err(error)),
            ) == ended
            &&& state.phase is Writing || state.phase is Answering ==> active_step(
                state,
                ActiveEventView::Written(false),
            ) == unsent
        }),
{
}

/// Law: the wish to disconnect is put to the server, and ends the session at once where it cannot
/// be encoded. So do a cancellation and a frontend that is gone. Discrete input does not
/// disconnect.
pub proof fn law_user_ends_the_session(state: ActiveState, error: Seq<char>)
    ensures
        ({
            let ended = (
                ActiveState { phase: ActivePhase::Ended, pending: Seq::empty() },
                ActiveActionView::End(
                    SessionEventView::Disconnected(DisconnectReasonView::UserInitiated),
                ),
            );
            let waiting = (
                ActiveState { phase: ActivePhase::Waiting, pending: Seq::empty() },
                ActiveActionView::Wait,
            );
            let disconnect = SessionCommand::Disconnect;
            &&& state.phase is Waiting ==> active_step(state, ActiveEventView::Cancelled) == ended
            &&& state.phase is Waiting ==> active_step(state, ActiveEventView::Command(None))
                == ended
            &&& state.phase is Waiting ==> active_step(
                state,
                ActiveEventView::Command(Some(disconnect)),
            ) == (
                ActiveState { phase: ActivePhase::EncodingShutdown, pending: Seq::empty() },
                ActiveActionView::EncodeShutdown,
            )
            &&& state.phase is Waiting ==> active_step(
                state,
                ActiveEventView::EssentialCommand(Some(disconnect)),
            ) == waiting
            &&& state.phase is EncodingShutdown ==> active_step(
                state,
                ActiveEventView::ShutdownEncoded(Err(error)),
            ) == ended
        }),
{
}

/// Law: a channel that is closed, a pointer without a position and an input that cannot be encoded
/// leave the session waiting.
pub proof fn law_nothing_to_do_leads_to_waiting(state: ActiveState, error: Seq<char>)
    ensures
        ({
            let waiting = (
                ActiveState { phase: ActivePhase::Waiting, pending: Seq::empty() },
                ActiveActionView::Wait,
            );
            &&& state.phase is Waiting ==> {
                &&& active_step(state, ActiveEventView::EssentialCommand(None)) == waiting
                &&& active_step(state, ActiveEventView::ClipboardChanged(Err(()))) == waiting
                &&& active_step(state, ActiveEventView::PointerChanged(Err(()))) == waiting
                &&& active_step(state, ActiveEventView::PointerChanged(Ok(None))) == waiting
                &&& active_step(state, ActiveEventView::ClipboardMessage(None)) == waiting
            }
            &&& state.phase is EncodingInput ==> active_step(
                state,
                ActiveEventView::InputEncoded(Err(error)),
            ) == waiting
            &&& state.phase is AskingCliprdr ==> active_step(
                state,
                ActiveEventView::CliprdrDone(CliprdrOutcomeView::Nothing),
            ) == waiting
        }),
{
}

/// Law: local text is advertised when it changes and when the channel asks for it, remote text is
/// fetched, local text is submitted as it is, remote text goes to the frontend as it is, and the
/// channel cleans up when it is time.
pub proof fn law_clipboard_requests_are_passed_on(
    state: ActiveState,
    data: Seq<u8>,
    text: Seq<char>,
)
    requires
        state.phase is Waiting,
    ensures
        ({
            let asking = ActiveState { phase: ActivePhase::AskingCliprdr, pending: Seq::empty() };
            let advertise = (
                asking,
                ActiveActionView::Cliprdr(CliprdrRequestView::AdvertiseText),
            );
            &&& active_step(state, ActiveEventView::ClipboardChanged(Ok(()))) == advertise
            &&& active_step(
                state,
                ActiveEventView::ClipboardMessage(Some(ClipboardBackendMsgView::InitiateCopy)),
            ) == advertise
            &&& active_step(
                state,
                ActiveEventView::ClipboardMessage(Some(ClipboardBackendMsgView::InitiatePaste)),
            ) == (asking, ActiveActionView::Cliprdr(CliprdrRequestView::FetchText))
            &&& active_step(
                state,
                ActiveEventView::ClipboardMessage(
                    Some(ClipboardBackendMsgView::SendFormatData(data)),
                ),
            ) == (asking, ActiveActionView::Cliprdr(CliprdrRequestView::SubmitText(data)))
            &&& active_step(
                state,
                ActiveEventView::ClipboardMessage(Some(ClipboardBackendMsgView::TextReceived(text))),
            ) == (
                ActiveState { phase: ActivePhase::Acting, pending: Seq::empty() },
                ActiveActionView::Send(SessionEventView::ClipboardTextReceived(text)),
            )
            &&& active_step(state, ActiveEventView::CleanupTick) == (
                asking,
                ActiveActionView::Cliprdr(CliprdrRequestView::DriveTimeouts),
            )
        }),
{
}

/// Law: what the clipboard channel wants sent is written as it is, and what goes wrong there is
/// offered to the frontend, word for word.
pub proof fn law_clipboard_answers_are_passed_on(
    state: ActiveState,
    frame: Seq<u8>,
    detail: Seq<char>,
)
    requires
        state.phase is AskingCliprdr,
    ensures
        active_step(state, ActiveEventView::CliprdrDone(CliprdrOutcomeView::Respond(frame))) == (
            ActiveState { phase: ActivePhase::Writing, pending: Seq::empty() },
            ActiveActionView::Write(frame),
        ),
        active_step(state, ActiveEventView::CliprdrDone(CliprdrOutcomeView::Failed(detail))) == (
            ActiveState { phase: ActivePhase::Acting, pending: Seq::empty() },
            ActiveActionView::Offer(
                SessionEventView::FeatureUnavailable { feature: "clipboard"@, detail },
            ),
        ),
{
    let outputs = seq![StageOutputView::ResponseFrame(frame)];
    assert(outputs.skip(1) =~= Seq::empty());
    assert(outputs[0] == StageOutputView::ResponseFrame(frame));
}

/// Law: outputs are handled alike wherever they come from: a frame of the server, an input, the
/// wish to disconnect, or what was left after a write or a piece of work.
pub proof fn law_outputs_are_handled_alike(
    outputs: Seq<StageOutputView>,
    a: Seq<StageOutputView>,
    b: Seq<StageOutputView>,
    c: Seq<StageOutputView>,
)
    ensures
        ({
            let decoded = active_step(
                ActiveState { phase: ActivePhase::Decoding, pending: a },
                ActiveEventView::Decoded(Ok(outputs)),
            );
            &&& active_step(
                ActiveState { phase: ActivePhase::EncodingInput, pending: b },
                ActiveEventView::InputEncoded(Ok(outputs)),
            ) == decoded
            &&& active_step(
                ActiveState { phase: ActivePhase::EncodingShutdown, pending: c },
                ActiveEventView::ShutdownEncoded(Ok(outputs)),
            ) == decoded
            &&& active_step(
                ActiveState { phase: ActivePhase::Writing, pending: outputs },
                ActiveEventView::Written(true),
            ) == decoded
            &&& active_step(
                ActiveState { phase: ActivePhase::Acting, pending: outputs },
                ActiveEventView::Done,
            ) == decoded
        }),
{
}

/// Law: how the first of some outputs is handled, with the rest kept for later as it is. A frame is
/// written as it is. A region is repainted: the rectangle that is copied is the one that the
/// frontend is told of. A deactivation begins a reactivation. A termination ends the session, for
/// the user's reason or with its description, word for word. Anything else is passed over.
pub proof fn law_outputs_are_handled_in_turn(
    state: ActiveState,
    frame: Seq<u8>,
    region: Region,
    description: Seq<char>,
    rest: Seq<StageOutputView>,
)
    requires
        state.phase is Acting,
        state.pending.len() > 0,
        state.pending.skip(1) == rest,
    ensures
        ({
            let (next, action) = active_step(state, ActiveEventView::Done);
            let first = state.pending[0];
            let passed = ActiveState { phase: ActivePhase::Acting, pending: rest };
            &&& first == StageOutputView::ResponseFrame(frame) ==> (next, action) == (
                ActiveState { phase: ActivePhase::Writing, pending: rest },
                ActiveActionView::Write(frame),
            )
            &&& first == StageOutputView::GraphicsUpdate(region) ==> {
                &&& next == ActiveState { phase: ActivePhase::Acting, pending: rest }
                &&& action matches ActiveActionView::Repaint { rect, event }
                &&& event == SessionEventView::FramebufferUpdated { rect }
                &&& rect == dirty_rect(region)
                &&& rect.x == region.left && rect.y == region.top
                &&& region.left <= region.right && region.right - region.left < 0xFFFF ==> rect.x
                    + rect.width == region.right + 1
                &&& region.top <= region.bottom && region.bottom - region.top < 0xFFFF ==> rect.y
                    + rect.height == region.bottom + 1
            }
            &&& first == StageOutputView::DeactivateAll ==> (next, action) == (
                ActiveState { phase: ActivePhase::Reactivating, pending: rest },
                ActiveActionView::StepActivation,
            )
            &&& first == StageOutputView::Terminate(TerminationView::UserInitiated) ==> (
                next,
                action,
            ) == (
                ActiveState { phase: ActivePhase::Ended, pending: Seq::empty() },
                ActiveActionView::End(
                    SessionEventView::Disconnected(DisconnectReasonView::UserInitiated),
                ),
            )
            &&& first == StageOutputView::Terminate(TerminationView::Other(description)) ==> (
                next,
                action,
            ) == (
                ActiveState { phase: ActivePhase::Ended, pending: Seq::empty() },
                ActiveActionView::End(
                    SessionEventView::Disconnected(
                        DisconnectReasonView::ConnectionLost(description),
                    ),
                ),
            )
            &&& first is PointerDefault || first is PointerHidden || first is PointerPosition
                || first is PointerBitmap || first is MultitransportRequest || first is AutoDetect
                ==> (next, action) == active_step(passed, ActiveEventView::Done)
        }),
{
    law_rectangle_covers_the_region(region, 0, 0);
}

/// Law: when no output is left, the session waits.
pub proof fn law_session_waits_when_all_is_done(state: ActiveState)
    requires
        state.phase is Acting,
        state.pending.len() == 0,
    ensures
        active_step(state, ActiveEventView::Done) == (
            ActiveState { phase: ActivePhase::Waiting, pending: Seq::empty() },
            ActiveActionView::Wait,
        ),
{
}

/// Law: a reactivation that is not complete goes on step by step, with each answer to the server
/// written as it is, and keeps the outputs that come after it.
pub proof fn law_reactivation_takes_its_steps(state: ActiveState, frame: Seq<u8>)
    requires
        state.phase is Reactivating,
    ensures
        active_step(state, ActiveEventView::ActivationStepped(Ok((None, None)))) == (
            state,
            ActiveActionView::StepActivation,
        ),
        ({
            let (next, action) = active_step(
                state,
                ActiveEventView::ActivationStepped(Ok((Some(frame), None))),
            );
            &&& action == ActiveActionView::Write(frame)
            &&& active_step(next, ActiveEventView::Written(true)) == (
                state,
                ActiveActionView::StepActivation,
            )
        }),
{
}

/// Law: a busy session does not look at what comes from outside, a waiting one at no answer, and
/// no session at an answer to something that it did not ask.
pub proof fn law_unfitting_events_change_nothing(state: ActiveState, event: ActiveEventView)
    requires
        event is Cancelled || event is FrameRead || event is Command || event is EssentialCommand
            || event is ClipboardChanged || event is PointerChanged || event is ClipboardMessage
            || event is CleanupTick ==> state.phase !is Waiting,
        event is Decoded ==> state.phase !is Decoding,
        event is InputEncoded ==> state.phase !is EncodingInput,
        event is ShutdownEncoded ==> state.phase !is EncodingShutdown,
        event is CliprdrDone ==> state.phase !is AskingCliprdr,
        event is Written ==> state.phase !is Writing && state.phase !is Answering,
        event is Done ==> state.phase !is Acting,
        event is ActivationStepped ==> state.phase !is Reactivating,
    ensures
        active_step(state, event) == (state, ActiveActionView::Ignore),
{
}

/// Law: why a session ended is the user's wish, or the description, word for word.
pub proof fn law_termination_keeps_its_words(description: Seq<char>)
    ensures
        termination_reason(TerminationView::UserInitiated) == DisconnectReasonView::UserInitiated,
        termination_reason(TerminationView::Other(description))
            == DisconnectReasonView::ConnectionLost(description),
{
}

/// Law: the contents of an event are what it holds.
pub proof fn law_active_events_hold_their_contents(
    text: String,
    outputs: Vec<StageOutput>,
    command: Option<SessionCommand>,
    changed: Result<(), ()>,
    position: Result<Option<InputEvent>, ()>,
    msg: ClipboardBackendMsg,
    outcome: CliprdrOutcome,
    ok: bool,
    frame: Vec<u8>,
    finalized: Option<Reactivation>,
)
    ensures
        ActiveEvent::Cancelled@ == ActiveEventView::Cancelled,
        ActiveEvent::FrameRead(Ok(()))@ == ActiveEventView::FrameRead(Ok(())),
        ActiveEvent::FrameRead(Err(text))@ == ActiveEventView::FrameRead(Err(text@)),
        ActiveEvent::Decoded(Ok(outputs))@ == ActiveEventView::Decoded(Ok(outputs_view(outputs@))),
        ActiveEvent::Decoded(Err(text))@ == ActiveEventView::Decoded(Err(text@)),
        ActiveEvent::Command(command)@ == ActiveEventView::Command(command),
        ActiveEvent::EssentialCommand(command)@ == ActiveEventView::EssentialCommand(command),
        ActiveEvent::ClipboardChanged(changed)@ == ActiveEventView::ClipboardChanged(changed),
        ActiveEvent::PointerChanged(position)@ == ActiveEventView::PointerChanged(position),
        ActiveEvent::ClipboardMessage(None)@ == ActiveEventView::ClipboardMessage(None),
        ActiveEvent::ClipboardMessage(Some(msg))@ == ActiveEventView::ClipboardMessage(Some(msg@)),
        ActiveEvent::CleanupTick@ == ActiveEventView::CleanupTick,
        ActiveEvent::InputEncoded(Ok(outputs))@ == ActiveEventView::InputEncoded(
            Ok(outputs_view(outputs@)),
        ),
        ActiveEvent::InputEncoded(Err(text))@ == ActiveEventView::InputEncoded(Err(text@)),
        ActiveEvent::ShutdownEncoded(Ok(outputs))@ == ActiveEventView::ShutdownEncoded(
            Ok(outputs_view(outputs@)),
        ),
        ActiveEvent::ShutdownEncoded(Err(text))@ == ActiveEventView::ShutdownEncoded(Err(text@)),
        ActiveEvent::CliprdrDone(outcome)@ == ActiveEventView::CliprdrDone(outcome@),
        ActiveEvent::Written(ok)@ == ActiveEventView::Written(ok),
        ActiveEvent::Done@ == ActiveEventView::Done,
        ActiveEvent::ActivationStepped(Err(text))@ == ActiveEventView::ActivationStepped(
            Err(text@),
        ),
        ActiveEvent::ActivationStepped(Ok(ActivationProgress { response: None, finalized }))@
            == ActiveEventView::ActivationStepped(Ok((None, finalized))),
        ActiveEvent::ActivationStepped(
            Ok(ActivationProgress { response: Some(frame), finalized }),
        )@ == ActiveEventView::ActivationStepped(Ok((Some(frame@), finalized))),
{
}

/// Law: the contents of an action, and of a request to the clipboard channel, are what it holds.
pub proof fn law_active_actions_hold_their_contents(
    input: InputEvent,
    request: CliprdrRequest,
    data: Vec<u8>,
    rect: DirtyRect,
    size: Resolution,
    negotiated: Option<Negotiated>,
    event: SessionEvent,
)
    ensures
        ActiveAction::Wait@ == ActiveActionView::Wait,
        ActiveAction::Decode@ == ActiveActionView::Decode,
        ActiveAction::EncodeInput(input)@ == ActiveActionView::EncodeInput(input),
        ActiveAction::EncodeCtrlAltDel@ == ActiveActionView::EncodeCtrlAltDel,
        ActiveAction::EncodeShutdown@ == ActiveActionView::EncodeShutdown,
        ActiveAction::Cliprdr(request)@ == ActiveActionView::Cliprdr(request@),
        ActiveAction::Write(data)@ == ActiveActionView::Write(data@),
        (ActiveAction::Repaint { rect, event })@ == (ActiveActionView::Repaint {
            rect,
            event: event@,
        }),
        ActiveAction::StepActivation@ == ActiveActionView::StepActivation,
        (ActiveAction::Resize { size, negotiated, event })@ == (ActiveActionView::Resize {
            size,
            negotiated,
            event: event@,
        }),
        ActiveAction::Offer(event)@ == ActiveActionView::Offer(event@),
        ActiveAction::Send(event)@ == ActiveActionView::Send(event@),
        ActiveAction::End(event)@ == ActiveActionView::End(event@),
        ActiveAction::Ignore@ == ActiveActionView::Ignore,
        CliprdrRequest::AdvertiseText@ == CliprdrRequestView::AdvertiseText,
        CliprdrRequest::FetchText@ == CliprdrRequestView::FetchText,
        CliprdrRequest::SubmitText(data)@ == CliprdrRequestView::SubmitText(data@),
        CliprdrRequest::DriveTimeouts@ == CliprdrRequestView::DriveTimeouts,
{
}

} // verus!
