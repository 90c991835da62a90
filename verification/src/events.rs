//! What a session tells its frontend.
use vstd::prelude::*;

verus! {

/// The part of the framebuffer that an update changed, in pixels.
#[derive(Debug, Clone, Copy, PartialEq, Eq, Structural)]
pub struct DirtyRect {
    pub x: u16,
    pub y: u16,
    pub width: u16,
    pub height: u16,
}

/// Why a session ended.
#[derive(Debug, PartialEq, Eq)]
pub enum DisconnectReason {
    /// The user closed the session.
    UserInitiated,
    /// An established connection ended.
    ConnectionLost(String),
    /// The connection was never established.
    ConnectionFailed(String),
}

/// The contents of a [`DisconnectReason`].
pub enum DisconnectReasonView {
    UserInitiated,
    ConnectionLost(Seq<char>),
    ConnectionFailed(Seq<char>),
}

impl View for DisconnectReason {
    type V = DisconnectReasonView;

    open spec fn view(&self) -> DisconnectReasonView {
        match self {
            DisconnectReason::UserInitiated => DisconnectReasonView::UserInitiated,
            DisconnectReason::ConnectionLost(detail) => DisconnectReasonView::ConnectionLost(
                detail@,
            ),
            DisconnectReason::ConnectionFailed(detail) => DisconnectReasonView::ConnectionFailed(
                detail@,
            ),
        }
    }
}

/// An event of a running session.
#[derive(Debug, PartialEq, Eq)]
pub enum SessionEvent {
    /// The session shows a desktop of this size.
    Connected { width: u16, height: u16 },
    /// A part of the framebuffer changed.
    FramebufferUpdated { rect: DirtyRect },
    /// The user has to give the password of this user name.
    CredsNeeded { username: String },
    /// The user has to say whether the server's certificate, described in words, is to be trusted.
    CertPrompt { certificate: String },
    /// Text arrived from the remote clipboard.
    ClipboardTextReceived(String),
    /// A feature does not work; the session goes on without it.
    FeatureUnavailable { feature: &'static str, detail: String },
    /// The session is over. No event follows.
    Disconnected(DisconnectReason),
}

/// The contents of a [`SessionEvent`].
pub enum SessionEventView {
    Connected { width: u16, height: u16 },
    FramebufferUpdated { rect: DirtyRect },
    CredsNeeded { username: Seq<char> },
    CertPrompt { certificate: Seq<char> },
    ClipboardTextReceived(Seq<char>),
    FeatureUnavailable { feature: Seq<char>, detail: Seq<char> },
    Disconnected(DisconnectReasonView),
}

impl View for SessionEvent {
    type V = SessionEventView;

    open spec fn view(&self) -> SessionEventView {
        match self {
            SessionEvent::Connected { width, height } => SessionEventView::Connected {
                width: *width,
                height: *height,
            },
            SessionEvent::FramebufferUpdated { rect } => SessionEventView::FramebufferUpdated {
                rect: *rect,
            },
            SessionEvent::CredsNeeded { username } => SessionEventView::CredsNeeded {
                username: username@,
            },
            SessionEvent::CertPrompt { certificate } => SessionEventView::CertPrompt {
                certificate: certificate@,
            },
            SessionEvent::ClipboardTextReceived(text) => SessionEventView::ClipboardTextReceived(
                text@,
            ),
            SessionEvent::FeatureUnavailable {
                feature,
                detail,
            } => SessionEventView::FeatureUnavailable { feature: feature@, detail: detail@ },
            SessionEvent::Disconnected(reason) => SessionEventView::Disconnected(reason@),
        }
    }
}

/// The event that tells the frontend that the clipboard does not work, and why.
pub fn notify_clipboard_failure(detail: &str) -> (r: SessionEvent)
    ensures
        r@ == (SessionEventView::FeatureUnavailable { feature: "clipboard"@, detail: detail@ }),
        r matches SessionEvent::FeatureUnavailable { feature: f, detail: d } && f@ == "clipboard"@
            && d@ == detail@,
{
    SessionEvent::FeatureUnavailable { feature: "clipboard", detail: detail.to_owned() }
}

/// Law: the contents of a reason are what it holds.
pub proof fn law_reasons_hold_their_contents(detail: String)
    ensures
        DisconnectReason::UserInitiated@ == DisconnectReasonView::UserInitiated,
        DisconnectReason::ConnectionLost(detail)@ == DisconnectReasonView::ConnectionLost(detail@),
        DisconnectReason::ConnectionFailed(detail)@ == DisconnectReasonView::ConnectionFailed(
            detail@,
        ),
{
}

/// Law: the contents of an event are what it holds.
pub proof fn law_events_hold_their_contents(
    width: u16,
    height: u16,
    rect: DirtyRect,
    text: String,
    feature: &'static str,
    reason: DisconnectReason,
)
    ensures
        (SessionEvent::Connected { width, height })@ == (SessionEventView::Connected {
            width,
            height,
        }),
        (SessionEvent::FramebufferUpdated { rect })@ == (SessionEventView::FramebufferUpdated {
            rect,
        }),
        (SessionEvent::CredsNeeded { username: text })@ == (SessionEventView::CredsNeeded {
            username: text@,
        }),
        (SessionEvent::CertPrompt { certificate: text })@ == (SessionEventView::CertPrompt {
            certificate: text@,
        }),
        SessionEvent::ClipboardTextReceived(text)@ == SessionEventView::ClipboardTextReceived(
            text@,
        ),
        (SessionEvent::FeatureUnavailable { feature, detail: text })@ == (
        SessionEventView::FeatureUnavailable { feature: feature@, detail: text@ }),
        SessionEvent::Disconnected(reason)@ == SessionEventView::Disconnected(reason@),
{
}

} // verus!
