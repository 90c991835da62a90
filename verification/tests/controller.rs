use beam::controller::{connect, InputEvent, Outgoing, SessionCommand, SessionController};
use beam::events::{notify_clipboard_failure, SessionEvent};
use beam::profiles::{ConnectionProfile, Resolution};
use tokio::sync::{mpsc, watch};

struct Channels {
    commands: mpsc::Sender<SessionCommand>,
    essential: mpsc::Sender<SessionCommand>,
    pointer: watch::Sender<Option<InputEvent>>,
    clipboard_generation: watch::Sender<u64>,
    cancelled: watch::Sender<bool>,
}

impl Channels {
    fn send(&self, outgoing: Outgoing) {
        match outgoing {
            Outgoing::Pointer(event) => {
                self.pointer.send_replace(Some(event));
            }
            Outgoing::Essential(command) => self.essential.blocking_send(command).unwrap(),
            Outgoing::Command(command) => self.commands.try_send(command).unwrap(),
            Outgoing::ClipboardGeneration(generation) => {
                self.clipboard_generation.send_replace(generation);
            }
            Outgoing::Cancel => {
                self.cancelled.send_replace(true);
            }
        }
    }
}

fn profile() -> ConnectionProfile {
    ConnectionProfile {
        id: "1".to_owned(),
        name: "server".to_owned(),
        host: "host".to_owned(),
        normalized_host: "host".to_owned(),
        port: 3389,
        username: "alice".to_owned(),
        resolution: Resolution { width: 1280, height: 800 },
    }
}

fn test_controller() -> (
    SessionController,
    Channels,
    mpsc::Receiver<SessionCommand>,
    mpsc::Receiver<SessionCommand>,
    watch::Receiver<Option<InputEvent>>,
) {
    let (commands, commands_rx) = mpsc::channel(2);
    let (essential, essential_rx) = mpsc::channel(2);
    let (pointer, pointer_rx) = watch::channel(None);
    let (clipboard_generation, _) = watch::channel(0);
    let (cancelled, _) = watch::channel(false);
    let (controller, _) = connect(&profile());
    (
        controller,
        Channels { commands, essential, pointer, clipboard_generation, cancelled },
        commands_rx,
        essential_rx,
        pointer_rx,
    )
}

#[test]
fn mouse_moves_are_coalesced_to_latest_position() {
    let (controller, channels, _commands, _essential, pointer) = test_controller();
    for x in 0..10_000 {
        channels.send(controller.send_input(InputEvent::MouseMove { x, y: 42 }));
    }
    assert_eq!(
        *pointer.borrow(),
        Some(InputEvent::MouseMove { x: 9_999, y: 42 })
    );
}

#[test]
fn discrete_transitions_use_the_reserved_bounded_queue() {
    let (controller, channels, mut commands, mut essential, _pointer) = test_controller();
    channels.send(controller.send_input(InputEvent::Key {
        scancode: 30,
        extended: false,
        pressed: true,
    }));
    channels.send(controller.send_input(InputEvent::Key {
        scancode: 30,
        extended: false,
        pressed: false,
    }));
    assert!(commands.try_recv().is_err());
    assert!(matches!(
        essential.try_recv(),
        Ok(SessionCommand::Input(InputEvent::Key { pressed: true, .. }))
    ));
    assert!(matches!(
        essential.try_recv(),
        Ok(SessionCommand::Input(InputEvent::Key { pressed: false, .. }))
    ));
}

#[test]
fn clipboard_failure_emits_actionable_diagnostic_without_sensitive_content() {
    let (events, mut receiver) = mpsc::channel(1);
    events
        .try_send(notify_clipboard_failure("canal não negociado"))
        .unwrap();
    match receiver.try_recv() {
        Ok(SessionEvent::FeatureUnavailable { feature, detail }) => {
            assert_eq!(feature, "clipboard");
            assert_eq!(detail, "canal não negociado");
        }
        other => panic!("unexpected event: {other:?}"),
    }
}

#[test]
fn moves_take_no_room_between_transitions() {
    let (controller, channels, mut commands, mut essential, pointer) = test_controller();
    channels.send(controller.send_input(InputEvent::Other { code: 7 }));
    for x in 0..1_000 {
        channels.send(controller.send_input(InputEvent::MouseMove { x, y: x }));
    }
    channels.send(controller.send_ctrl_alt_del());
    assert_eq!(
        essential.try_recv(),
        Ok(SessionCommand::Input(InputEvent::Other { code: 7 }))
    );
    assert_eq!(essential.try_recv(), Ok(SessionCommand::CtrlAltDel));
    assert!(essential.try_recv().is_err());
    assert!(commands.try_recv().is_err());
    assert_eq!(*pointer.borrow(), Some(InputEvent::MouseMove { x: 999, y: 999 }));
}

#[test]
fn local_text_is_cached_before_its_generation_is_sent() {
    let (mut controller, _) = connect(&profile());
    assert_eq!(controller.clipboard_bridge().get_local_text(), None);
    assert_eq!(
        controller.set_local_clipboard_text("um".to_owned()),
        Outgoing::ClipboardGeneration(1)
    );
    assert_eq!(
        controller.clipboard_bridge().get_local_text(),
        Some("um".to_owned())
    );
    assert_eq!(
        controller.set_local_clipboard_text("dois".to_owned()),
        Outgoing::ClipboardGeneration(2)
    );
    assert_eq!(
        controller.clipboard_bridge().get_local_text(),
        Some("dois".to_owned())
    );
}

#[test]
fn disconnect_cancels_and_asks() {
    let (controller, channels, mut commands, _essential, _pointer) = test_controller();
    let (first, second) = controller.disconnect();
    assert_eq!(first, Outgoing::Cancel);
    channels.send(first);
    channels.send(second);
    assert!(*channels.cancelled.borrow());
    assert_eq!(commands.try_recv(), Ok(SessionCommand::Disconnect));
}

#[test]
fn new_session_has_its_channels_sized() {
    let (_, channels) = connect(&profile());
    assert_eq!(channels.event_capacity, 64);
    assert_eq!(channels.command_capacity, 256);
    assert_eq!(channels.essential_capacity, 512);
    assert_eq!(channels.pointer_position, None);
    assert_eq!(channels.clipboard_generation, 0);
    assert!(!channels.cancelled);
    assert_eq!(channels.framebuffer, Resolution { width: 1280, height: 800 });
}

#[test]
fn disconnect_cancels_though_the_command_queue_is_full() {
    let (controller, channels, mut commands, _essential, _pointer) = test_controller();
    let (cancel, disconnect) = controller.disconnect();
    channels.send(disconnect);
    channels.send(disconnect);
    match disconnect {
        Outgoing::Command(command) => assert!(channels.commands.try_send(command).is_err()),
        other => panic!("unexpected message: {other:?}"),
    }
    channels.send(cancel);
    assert!(*channels.cancelled.borrow());
    assert_eq!(commands.try_recv(), Ok(SessionCommand::Disconnect));
    assert_eq!(commands.try_recv(), Ok(SessionCommand::Disconnect));
    assert!(commands.try_recv().is_err());
}
