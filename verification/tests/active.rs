use beam::active::{
    disconnect_reason, to_dirty_rect, ActivationProgress, ActiveAction, ActiveEvent, ActiveSession,
    Reactivation,
};
use beam::clipboard::ClipboardBackendMsg;
use beam::controller::{InputEvent, SessionCommand};
use beam::events::{DirtyRect, DisconnectReason, SessionEvent};
use beam::profiles::Resolution;
use beam::stage::{
    CliprdrOutcome, CliprdrRequest, Negotiated, Region, StageOutput, Termination,
};

fn running() -> ActiveSession {
    let (mut session, _) = ActiveSession::start(Resolution { width: 800, height: 600 });
    assert_eq!(session.step(ActiveEvent::Done), ActiveAction::Wait);
    session
}

fn decoding() -> ActiveSession {
    let mut session = running();
    assert_eq!(session.step(ActiveEvent::FrameRead(Ok(()))), ActiveAction::Decode);
    session
}

fn lost(why: &str) -> ActiveAction {
    ActiveAction::End(SessionEvent::Disconnected(DisconnectReason::ConnectionLost(
        why.to_owned(),
    )))
}

fn closed_by_user() -> ActiveAction {
    ActiveAction::End(SessionEvent::Disconnected(DisconnectReason::UserInitiated))
}

fn key(pressed: bool) -> InputEvent {
    InputEvent::Key { scancode: 30, extended: false, pressed }
}

#[test]
fn regions_become_rectangles() {
    assert_eq!(
        to_dirty_rect(&Region { left: 10, top: 20, right: 19, bottom: 20 }),
        DirtyRect { x: 10, y: 20, width: 10, height: 1 }
    );
    assert_eq!(
        to_dirty_rect(&Region { left: 5, top: 0, right: 4, bottom: u16::MAX }),
        DirtyRect { x: 5, y: 0, width: 1, height: u16::MAX }
    );
    assert_eq!(
        to_dirty_rect(&Region { left: 0, top: 1, right: u16::MAX - 1, bottom: u16::MAX }),
        DirtyRect { x: 0, y: 1, width: u16::MAX, height: u16::MAX }
    );
}

#[test]
fn terminations_become_reasons() {
    assert_eq!(
        disconnect_reason(Termination::UserInitiated),
        DisconnectReason::UserInitiated
    );
    assert_eq!(
        disconnect_reason(Termination::Other("x".to_owned())),
        DisconnectReason::ConnectionLost("x".to_owned())
    );
}

#[test]
fn session_starts_by_showing_the_desktop() {
    let (session, action) = ActiveSession::start(Resolution { width: 800, height: 600 });
    assert_eq!(
        action,
        ActiveAction::Resize {
            size: Resolution { width: 800, height: 600 },
            negotiated: None,
            event: SessionEvent::Connected { width: 800, height: 600 },
        }
    );
    assert!(!session.is_ended());
}

#[test]
fn outputs_are_handled_in_order() {
    let mut session = decoding();
    let rect = DirtyRect { x: 1, y: 2, width: 3, height: 4 };
    assert_eq!(
        session.step(ActiveEvent::Decoded(Ok(vec![
            StageOutput::PointerHidden,
            StageOutput::ResponseFrame(vec![1]),
            StageOutput::AutoDetect,
            StageOutput::GraphicsUpdate(Region { left: 1, top: 2, right: 3, bottom: 5 }),
            StageOutput::ResponseFrame(vec![2]),
            StageOutput::MultitransportRequest,
        ]))),
        ActiveAction::Write(vec![1])
    );
    assert_eq!(
        session.step(ActiveEvent::Written(true)),
        ActiveAction::Repaint { rect, event: SessionEvent::FramebufferUpdated { rect } }
    );
    assert_eq!(session.step(ActiveEvent::Done), ActiveAction::Write(vec![2]));
    assert_eq!(session.step(ActiveEvent::Written(true)), ActiveAction::Wait);
}

#[test]
fn termination_drops_what_follows() {
    let mut session = decoding();
    assert_eq!(
        session.step(ActiveEvent::Decoded(Ok(vec![
            StageOutput::Terminate(Termination::Other("fim".to_owned())),
            StageOutput::ResponseFrame(vec![1]),
        ]))),
        lost("fim")
    );
    assert!(session.is_ended());
}

#[test]
fn ended_session_does_nothing_more() {
    let mut session = running();
    assert_eq!(session.step(ActiveEvent::Cancelled), closed_by_user());
    assert!(session.is_ended());
    assert_eq!(session.step(ActiveEvent::Cancelled), ActiveAction::Ignore);
    assert_eq!(session.step(ActiveEvent::FrameRead(Ok(()))), ActiveAction::Ignore);
    assert_eq!(session.step(ActiveEvent::Done), ActiveAction::Ignore);
}

#[test]
fn connection_failures_end_the_session() {
    assert_eq!(
        running().step(ActiveEvent::FrameRead(Err("eof".to_owned()))),
        lost("eof")
    );
    assert_eq!(
        decoding().step(ActiveEvent::Decoded(Err("pdu".to_owned()))),
        lost("pdu")
    );
    let mut session = decoding();
    session.step(ActiveEvent::Decoded(Ok(vec![StageOutput::ResponseFrame(vec![1])])));
    assert_eq!(
        session.step(ActiveEvent::Written(false)),
        lost("falha ao enviar dados")
    );
}

#[test]
fn commands_are_encoded() {
    let mut session = running();
    assert_eq!(
        session.step(ActiveEvent::Command(Some(SessionCommand::Input(key(true))))),
        ActiveAction::EncodeInput(key(true))
    );
    assert_eq!(
        session.step(ActiveEvent::InputEncoded(Ok(vec![StageOutput::ResponseFrame(vec![9])]))),
        ActiveAction::Write(vec![9])
    );
    assert_eq!(session.step(ActiveEvent::Written(true)), ActiveAction::Wait);
    assert_eq!(
        session.step(ActiveEvent::EssentialCommand(Some(SessionCommand::CtrlAltDel))),
        ActiveAction::EncodeCtrlAltDel
    );
    assert_eq!(session.step(ActiveEvent::InputEncoded(Ok(vec![]))), ActiveAction::Wait);
    assert_eq!(
        session.step(ActiveEvent::PointerChanged(Ok(Some(InputEvent::MouseMove { x: 1, y: 2 })))),
        ActiveAction::EncodeInput(InputEvent::MouseMove { x: 1, y: 2 })
    );
}

#[test]
fn closed_side_channels_need_nothing_done() {
    let mut session = running();
    assert_eq!(session.step(ActiveEvent::EssentialCommand(None)), ActiveAction::Wait);
    assert_eq!(
        session.step(ActiveEvent::EssentialCommand(Some(SessionCommand::Disconnect))),
        ActiveAction::Wait
    );
    assert_eq!(session.step(ActiveEvent::ClipboardChanged(Err(()))), ActiveAction::Wait);
    assert_eq!(session.step(ActiveEvent::PointerChanged(Err(()))), ActiveAction::Wait);
    assert_eq!(session.step(ActiveEvent::PointerChanged(Ok(None))), ActiveAction::Wait);
    assert_eq!(session.step(ActiveEvent::ClipboardMessage(None)), ActiveAction::Wait);
}

#[test]
fn dropped_frontend_ends_the_session() {
    assert_eq!(running().step(ActiveEvent::Command(None)), closed_by_user());
}

#[test]
fn disconnect_asks_the_server_first() {
    let mut session = running();
    assert_eq!(
        session.step(ActiveEvent::Command(Some(SessionCommand::Disconnect))),
        ActiveAction::EncodeShutdown
    );
    assert_eq!(
        session.step(ActiveEvent::ShutdownEncoded(Ok(vec![StageOutput::ResponseFrame(vec![3])]))),
        ActiveAction::Write(vec![3])
    );
    assert_eq!(session.step(ActiveEvent::Written(true)), ActiveAction::Wait);

    let mut session = running();
    session.step(ActiveEvent::Command(Some(SessionCommand::Disconnect)));
    assert_eq!(
        session.step(ActiveEvent::ShutdownEncoded(Err("x".to_owned()))),
        closed_by_user()
    );
}

#[test]
fn clipboard_messages_reach_the_channel() {
    let mut session = running();
    assert_eq!(
        session.step(ActiveEvent::ClipboardChanged(Ok(()))),
        ActiveAction::Cliprdr(CliprdrRequest::AdvertiseText)
    );
    assert_eq!(
        session.step(ActiveEvent::CliprdrDone(CliprdrOutcome::Respond(vec![4]))),
        ActiveAction::Write(vec![4])
    );
    assert_eq!(session.step(ActiveEvent::Written(true)), ActiveAction::Wait);
    assert_eq!(
        session.step(ActiveEvent::ClipboardMessage(Some(ClipboardBackendMsg::InitiateCopy))),
        ActiveAction::Cliprdr(CliprdrRequest::AdvertiseText)
    );
    session.step(ActiveEvent::CliprdrDone(CliprdrOutcome::Nothing));
    assert_eq!(
        session.step(ActiveEvent::ClipboardMessage(Some(ClipboardBackendMsg::InitiatePaste))),
        ActiveAction::Cliprdr(CliprdrRequest::FetchText)
    );
    session.step(ActiveEvent::CliprdrDone(CliprdrOutcome::Nothing));
    assert_eq!(
        session.step(ActiveEvent::ClipboardMessage(Some(ClipboardBackendMsg::SendFormatData(
            vec![5]
        )))),
        ActiveAction::Cliprdr(CliprdrRequest::SubmitText(vec![5]))
    );
    session.step(ActiveEvent::CliprdrDone(CliprdrOutcome::Nothing));
    assert_eq!(
        session.step(ActiveEvent::ClipboardMessage(Some(ClipboardBackendMsg::TextReceived(
            "oi".to_owned()
        )))),
        ActiveAction::Send(SessionEvent::ClipboardTextReceived("oi".to_owned()))
    );
    assert_eq!(session.step(ActiveEvent::Done), ActiveAction::Wait);
    assert_eq!(
        session.step(ActiveEvent::CleanupTick),
        ActiveAction::Cliprdr(CliprdrRequest::DriveTimeouts)
    );
}

#[test]
fn failures_beside_the_connection_are_not_fatal() {
    let mut session = running();
    session.step(ActiveEvent::CleanupTick);
    assert_eq!(
        session.step(ActiveEvent::CliprdrDone(CliprdrOutcome::Failed("x".to_owned()))),
        ActiveAction::Offer(SessionEvent::FeatureUnavailable {
            feature: "clipboard",
            detail: "x".to_owned(),
        })
    );
    assert_eq!(session.step(ActiveEvent::Done), ActiveAction::Wait);
    session.step(ActiveEvent::Command(Some(SessionCommand::CtrlAltDel)));
    assert_eq!(
        session.step(ActiveEvent::InputEncoded(Err("x".to_owned()))),
        ActiveAction::Wait
    );
    assert!(!session.is_ended());
}

#[test]
fn reactivation_resizes_and_goes_on() {
    let mut session = decoding();
    assert_eq!(
        session.step(ActiveEvent::Decoded(Ok(vec![
            StageOutput::DeactivateAll,
            StageOutput::ResponseFrame(vec![8]),
        ]))),
        ActiveAction::StepActivation
    );
    assert_eq!(
        session.step(ActiveEvent::ActivationStepped(Ok(ActivationProgress {
            response: None,
            finalized: None,
        }))),
        ActiveAction::StepActivation
    );
    assert_eq!(
        session.step(ActiveEvent::ActivationStepped(Ok(ActivationProgress {
            response: Some(vec![6]),
            finalized: None,
        }))),
        ActiveAction::Write(vec![6])
    );
    assert_eq!(session.step(ActiveEvent::Written(true)), ActiveAction::StepActivation);
    let size = Resolution { width: 1024, height: 768 };
    let negotiated = Negotiated {
        io_channel_id: 1003,
        user_channel_id: 1007,
        share_id: 77,
        enable_server_pointer: true,
        pointer_software_rendering: false,
    };
    assert_eq!(
        session.step(ActiveEvent::ActivationStepped(Ok(ActivationProgress {
            response: Some(vec![7]),
            finalized: Some(Reactivation { size, negotiated }),
        }))),
        ActiveAction::Write(vec![7])
    );
    assert_eq!(
        session.step(ActiveEvent::Written(true)),
        ActiveAction::Resize {
            size,
            negotiated: Some(negotiated),
            event: SessionEvent::Connected { width: 1024, height: 768 },
        }
    );
    assert_eq!(session.step(ActiveEvent::Done), ActiveAction::Write(vec![8]));
    assert_eq!(session.step(ActiveEvent::Written(true)), ActiveAction::Wait);
}

#[test]
fn failed_reactivation_ends_the_session() {
    let mut session = decoding();
    session.step(ActiveEvent::Decoded(Ok(vec![StageOutput::DeactivateAll])));
    assert_eq!(
        session.step(ActiveEvent::ActivationStepped(Err("x".to_owned()))),
        lost("x")
    );

    let mut session = decoding();
    session.step(ActiveEvent::Decoded(Ok(vec![StageOutput::DeactivateAll])));
    session.step(ActiveEvent::ActivationStepped(Ok(ActivationProgress {
        response: Some(vec![6]),
        finalized: None,
    })));
    assert_eq!(
        session.step(ActiveEvent::Written(false)),
        lost("falha ao enviar dados")
    );
}

#[test]
fn silent_last_step_of_a_reactivation_resizes_at_once() {
    let mut session = decoding();
    session.step(ActiveEvent::Decoded(Ok(vec![StageOutput::DeactivateAll])));
    let size = Resolution { width: 640, height: 480 };
    let negotiated = Negotiated {
        io_channel_id: 1,
        user_channel_id: 2,
        share_id: 3,
        enable_server_pointer: false,
        pointer_software_rendering: true,
    };
    assert_eq!(
        session.step(ActiveEvent::ActivationStepped(Ok(ActivationProgress {
            response: None,
            finalized: Some(Reactivation { size, negotiated }),
        }))),
        ActiveAction::Resize {
            size,
            negotiated: Some(negotiated),
            event: SessionEvent::Connected { width: 640, height: 480 },
        }
    );
    assert_eq!(session.step(ActiveEvent::Done), ActiveAction::Wait);
}

#[test]
fn only_repaints_and_notices_are_offered() {
    let mut session = decoding();
    assert!(matches!(
        session.step(ActiveEvent::Decoded(Ok(vec![StageOutput::GraphicsUpdate(Region {
            left: 0,
            top: 0,
            right: 0,
            bottom: 0,
        })]))),
        ActiveAction::Repaint { event: SessionEvent::FramebufferUpdated { .. }, .. }
    ));
    session.step(ActiveEvent::Done);
    session.step(ActiveEvent::CleanupTick);
    assert!(matches!(
        session.step(ActiveEvent::CliprdrDone(CliprdrOutcome::Failed(String::new()))),
        ActiveAction::Offer(SessionEvent::FeatureUnavailable { .. })
    ));
    session.step(ActiveEvent::Done);
    assert!(matches!(
        session.step(ActiveEvent::Cancelled),
        ActiveAction::End(SessionEvent::Disconnected(_))
    ));
}
