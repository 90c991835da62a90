use beam::events::{DisconnectReason, SessionEvent};
use beam::profiles::{ConnectionProfile, Resolution, SecretKey};
use beam::setup::{SessionSetup, SetupAction, SetupEvent};
use tokio::sync::mpsc;

fn profile() -> ConnectionProfile {
    ConnectionProfile {
        id: "1".to_owned(),
        name: "server".to_owned(),
        host: "HOST".to_owned(),
        normalized_host: "host".to_owned(),
        port: 3390,
        username: "alice".to_owned(),
        resolution: Resolution { width: 1, height: 1 },
    }
}

fn key() -> SecretKey {
    SecretKey { host: "host".to_owned(), port: 3390, user: "alice".to_owned() }
}

fn started() -> SessionSetup {
    let (setup, action) = SessionSetup::start(&profile());
    assert_eq!(action, SetupAction::Lookup(key()));
    setup
}

fn prompting() -> SessionSetup {
    let mut setup = started();
    assert_eq!(
        setup.step(SetupEvent::LookedUp(Ok(None))),
        SetupAction::Prompt(SessionEvent::CredsNeeded { username: "alice".to_owned() })
    );
    setup
}

fn connect(password: &str) -> SetupAction {
    SetupAction::Connect { password: password.to_owned() }
}

fn end(reason: DisconnectReason) -> SetupAction {
    SetupAction::End(SessionEvent::Disconnected(reason))
}

fn failed(error: &str, authentication_rejected: bool) -> SetupEvent {
    SetupEvent::ConnectFailed { error: error.to_owned(), authentication_rejected }
}

#[test]
fn stored_password_is_used_and_not_saved_again() {
    let mut setup = started();
    assert_eq!(
        setup.step(SetupEvent::LookedUp(Ok(Some("p".to_owned())))),
        connect("p")
    );
    assert_eq!(setup.step(SetupEvent::Connected), SetupAction::Run);
}

#[test]
fn failing_keyring_leads_to_a_prompt() {
    let mut setup = started();
    assert_eq!(
        setup.step(SetupEvent::LookedUp(Err("bus".to_owned()))),
        SetupAction::Prompt(SessionEvent::CredsNeeded { username: "alice".to_owned() })
    );
}

#[test]
fn typed_password_is_saved_after_it_worked() {
    let mut setup = prompting();
    assert_eq!(
        setup.step(SetupEvent::Answered(Some(("q".to_owned(), true)))),
        connect("q")
    );
    assert_eq!(
        setup.step(SetupEvent::Connected),
        SetupAction::Store { key: key(), password: "q".to_owned() }
    );
    assert_eq!(setup.step(SetupEvent::Stored), SetupAction::Run);
}

#[test]
fn typed_password_is_not_saved_unasked() {
    let mut setup = prompting();
    setup.step(SetupEvent::Answered(Some(("q".to_owned(), false))));
    assert_eq!(setup.step(SetupEvent::Connected), SetupAction::Run);
}

#[test]
fn missing_password_ends_the_session() {
    assert_eq!(
        prompting().step(SetupEvent::Answered(None)),
        end(DisconnectReason::ConnectionFailed("senha não fornecida".to_owned()))
    );
}

#[test]
fn cancelling_ends_the_session() {
    assert_eq!(
        started().step(SetupEvent::Cancelled),
        end(DisconnectReason::UserInitiated)
    );
    let mut setup = prompting();
    assert_eq!(
        setup.step(SetupEvent::Cancelled),
        end(DisconnectReason::UserInitiated)
    );
    assert_eq!(setup.step(SetupEvent::Cancelled), SetupAction::Ignore);
}

#[test]
fn rejected_stored_password_is_removed() {
    let mut setup = started();
    setup.step(SetupEvent::LookedUp(Ok(Some("p".to_owned()))));
    assert_eq!(setup.step(failed("nla", true)), SetupAction::Delete(key()));
    assert_eq!(
        setup.step(SetupEvent::Deleted),
        end(DisconnectReason::ConnectionFailed("nla".to_owned()))
    );
}

#[test]
fn stored_password_survives_other_failures() {
    let mut setup = started();
    setup.step(SetupEvent::LookedUp(Ok(Some("p".to_owned()))));
    assert_eq!(
        setup.step(failed("tcp", false)),
        end(DisconnectReason::ConnectionFailed("tcp".to_owned()))
    );
}

#[test]
fn rejected_typed_password_removes_nothing() {
    let mut setup = prompting();
    setup.step(SetupEvent::Answered(Some(("q".to_owned(), true))));
    assert_eq!(
        setup.step(failed("nla", true)),
        end(DisconnectReason::ConnectionFailed("nla".to_owned()))
    );
}

#[test]
fn stream_ends_after_the_disconnection() {
    let (events, mut stream) = mpsc::channel(64);
    let mut setup = started();
    for event in [
        SetupEvent::LookedUp(Ok(None)),
        SetupEvent::Answered(Some(("q".to_owned(), false))),
        failed("tcp", false),
    ] {
        match setup.step(event) {
            SetupAction::Prompt(event) | SetupAction::End(event) => events.try_send(event).unwrap(),
            _ => {}
        }
    }
    drop(events);
    assert_eq!(
        stream.blocking_recv(),
        Some(SessionEvent::CredsNeeded { username: "alice".to_owned() })
    );
    assert_eq!(
        stream.blocking_recv(),
        Some(SessionEvent::Disconnected(DisconnectReason::ConnectionFailed("tcp".to_owned())))
    );
    assert_eq!(stream.blocking_recv(), None);
    assert_eq!(stream.blocking_recv(), None);
}

#[test]
fn questions_while_connecting_come_before_the_disconnection() {
    let (events, mut stream) = mpsc::channel(64);
    let mut setup = started();
    let mut connects = 0;
    for event in [
        SetupEvent::LookedUp(Ok(Some("p".to_owned()))),
        failed("certificado", false),
        SetupEvent::LookedUp(Ok(Some("p".to_owned()))),
    ] {
        match setup.step(event) {
            SetupAction::Connect { .. } => {
                connects += 1;
                let certificate = "CN=host".to_owned();
                events.try_send(SessionEvent::CertPrompt { certificate }).unwrap();
            }
            SetupAction::End(event) => events.try_send(event).unwrap(),
            _ => {}
        }
    }
    drop(events);
    assert_eq!(connects, 1);
    assert_eq!(
        stream.blocking_recv(),
        Some(SessionEvent::CertPrompt { certificate: "CN=host".to_owned() })
    );
    assert!(matches!(stream.blocking_recv(), Some(SessionEvent::Disconnected(_))));
    assert_eq!(stream.blocking_recv(), None);
}
