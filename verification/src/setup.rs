//! How a session gets from a profile to a connection, as a state machine.
//!
//! The password comes from the system's keyring, or from the user where the keyring has none.
//! A password that the user typed is saved after it has worked, if the user wants that; one from
//! the keyring is removed when the server rejects it. The keyring, the user and the network are
//! outside: a [`SessionSetup`] is told what happened and answers with the next thing to do.
use crate::events::{DisconnectReason, SessionEvent};
use crate::profiles::{ConnectionProfile, SecretKey};
use vstd::prelude::*;

verus! {

use crate::active::{
    ActiveEventView,
    ActivePhase,
    active_run,
    droppable,
    idle,
    law_active_session_tells_of_its_end,
    tells_of_end,
};
use crate::events::{DisconnectReasonView, SessionEventView};
use crate::profiles::{SecretKeyView, credential};

/// Something that happened to a session that is being set up.
pub enum SetupEvent {
    /// The cancellation flag changed.
    Cancelled,
    /// The keyring was asked for the password, or failed.
    LookedUp(Result<Option<String>, String>),
    /// The user gave a password, and said whether to save it; or gave none.
    Answered(Option<(String, bool)>),
    /// The connection is established.
    Connected,
    /// The connection failed.
    ConnectFailed { error: String, authentication_rejected: bool },
    /// The keyring was asked to save the password.
    Stored,
    /// The keyring was asked to remove the password.
    Deleted,
}

/// What to do next to set up a session.
#[derive(Debug, PartialEq, Eq)]
pub enum SetupAction {
    /// Ask the keyring for the password.
    Lookup(SecretKey),
    /// Send this event to the frontend, and wait for the user's answer.
    Prompt(SessionEvent),
    /// Connect with this password.
    Connect { password: String },
    /// Ask the keyring to save the password.
    Store { key: SecretKey, password: String },
    /// Ask the keyring to remove the password.
    Delete(SecretKey),
    /// The session runs.
    Run,
    /// Send this event to the frontend, and stop.
    End(SessionEvent),
    /// Nothing: the event does not fit what is being done.
    Ignore,
}

/// What is being done to set up a session.
enum SetupPhase {
    LookingUp,
    Prompting,
    Connecting { password: String, from_store: bool, save: bool },
    Storing,
    Deleting { error: String },
    Running,
    Ended,
}

/// A session that is being set up.
pub struct SessionSetup {
    key: SecretKey,
    phase: SetupPhase,
}

/// The contents of a setup's phase.
pub enum SetupPhaseView {
    LookingUp,
    Prompting,
    Connecting { password: Seq<char>, from_store: bool, save: bool },
    Storing,
    Deleting { error: Seq<char> },
    Running,
    Ended,
}

/// The contents of a [`SessionSetup`].
pub ghost struct SetupState {
    pub key: SecretKeyView,
    pub phase: SetupPhaseView,
}

impl View for SessionSetup {
    type V = SetupState;

    closed spec fn view(&self) -> SetupState {
        SetupState {
            key: self.key@,
            phase: match self.phase {
                SetupPhase::LookingUp => SetupPhaseView::LookingUp,
                SetupPhase::Prompting => SetupPhaseView::Prompting,
                SetupPhase::Connecting { password, from_store, save } => SetupPhaseView::Connecting {
                    password: password@,
                    from_store,
                    save,
                },
                SetupPhase::Storing => SetupPhaseView::Storing,
                SetupPhase::Deleting { error } => SetupPhaseView::Deleting { error: error@ },
                SetupPhase::Running => SetupPhaseView::Running,
                SetupPhase::Ended => SetupPhaseView::Ended,
            },
        }
    }
}

/// The contents of a [`SetupEvent`].
pub enum SetupEventView {
    Cancelled,
    LookedUp(Result<Option<Seq<char>>, Seq<char>>),
    Answered(Option<(Seq<char>, bool)>),
    Connected,
    ConnectFailed { error: Seq<char>, authentication_rejected: bool },
    Stored,
    Deleted,
}

impl View for SetupEvent {
    type V = SetupEventView;

    open spec fn view(&self) -> SetupEventView {
        match self {
            SetupEvent::Cancelled => SetupEventView::Cancelled,
            SetupEvent::LookedUp(Ok(Some(password))) => SetupEventView::LookedUp(
                Ok(Some(password@)),
            ),
            SetupEvent::LookedUp(Ok(None)) => SetupEventView::LookedUp(Ok(None)),
            SetupEvent::LookedUp(Err(error)) => SetupEventView::LookedUp(Err(error@)),
            SetupEvent::Answered(Some((password, save))) => SetupEventView::Answered(
                Some((password@, *save)),
            ),
            SetupEvent::Answered(None) => SetupEventView::Answered(None),
            SetupEvent::Connected => SetupEventView::Connected,
            SetupEvent::ConnectFailed {
                error,
                authentication_rejected,
            } => SetupEventView::ConnectFailed {
                error: error@,
                authentication_rejected: *authentication_rejected,
            },
            SetupEvent::Stored => SetupEventView::Stored,
            SetupEvent::Deleted => SetupEventView::Deleted,
        }
    }
}

/// The contents of a [`SetupAction`].
pub enum SetupActionView {
    Lookup(SecretKeyView),
    Prompt(SessionEventView),
    Connect { password: Seq<char> },
    Store { key: SecretKeyView, password: Seq<char> },
    Delete(SecretKeyView),
    Run,
    End(SessionEventView),
    Ignore,
}

impl View for SetupAction {
    type V = SetupActionView;

    open spec fn view(&self) -> SetupActionView {
        match self {
            SetupAction::Lookup(key) => SetupActionView::Lookup(key@),
            SetupAction::Prompt(event) => SetupActionView::Prompt(event@),
            SetupAction::Connect { password } => SetupActionView::Connect { password: password@ },
            SetupAction::Store { key, password } => SetupActionView::Store {
                key: key@,
                password: password@,
            },
            SetupAction::Delete(key) => SetupActionView::Delete(key@),
            SetupAction::Run => SetupActionView::Run,
            SetupAction::End(event) => SetupActionView::End(event@),
            SetupAction::Ignore => SetupActionView::Ignore,
        }
    }
}

/// A setup that ended for this reason.
pub open spec fn setup_ended(key: SecretKeyView, reason: DisconnectReasonView) -> (
    SetupState,
    SetupActionView,
) {
    (
        SetupState { key, phase: SetupPhaseView::Ended },
        SetupActionView::End(SessionEventView::Disconnected(reason)),
    )
}

/// A setup that connects.
pub open spec fn connecting(
    key: SecretKeyView,
    password: Seq<char>,
    from_store: bool,
    save: bool,
) -> (SetupState, SetupActionView) {
    (
        SetupState { key, phase: SetupPhaseView::Connecting { password, from_store, save } },
        SetupActionView::Connect { password },
    )
}

/// What a setup does when something happens. An event that does not fit what is being done
/// changes nothing.
pub open spec fn setup_step(state: SetupState, event: SetupEventView) -> (
    SetupState,
    SetupActionView,
) {
    let key = state.key;
    match (state.phase, event) {
        (SetupPhaseView::LookingUp, SetupEventView::Cancelled) => setup_ended(
            key,
            DisconnectReasonView::UserInitiated,
        ),
        (SetupPhaseView::LookingUp, SetupEventView::LookedUp(Ok(Some(password)))) => connecting(
            key,
            password,
            true,
            false,
        ),
        (SetupPhaseView::LookingUp, SetupEventView::LookedUp(_)) => (
            SetupState { key, phase: SetupPhaseView::Prompting },
            SetupActionView::Prompt(SessionEventView::CredsNeeded { username: key.user }),
        ),
        (SetupPhaseView::Prompting, SetupEventView::Cancelled) => setup_ended(
            key,
            DisconnectReasonView::UserInitiated,
        ),
        (SetupPhaseView::Prompting, SetupEventView::Answered(Some((password, save)))) => connecting(
            key,
            password,
            false,
            save,
        ),
        (SetupPhaseView::Prompting, SetupEventView::Answered(None)) => setup_ended(
            key,
            DisconnectReasonView::ConnectionFailed("senha não fornecida"@),
        ),
        (
            SetupPhaseView::Connecting { password, from_store, save },
            SetupEventView::Connected,
        ) => if save {
            (
                SetupState { key, phase: SetupPhaseView::Storing },
                SetupActionView::Store { key, password },
            )
        } else {
            (SetupState { key, phase: SetupPhaseView::Running }, SetupActionView::Run)
        },
        (
            SetupPhaseView::Connecting { password, from_store, save },
            SetupEventView::ConnectFailed { error, authentication_rejected },
        ) => if from_store && authentication_rejected {
            (
                SetupState { key, phase: SetupPhaseView::Deleting { error } },
                SetupActionView::Delete(key),
            )
        } else {
            setup_ended(key, DisconnectReasonView::ConnectionFailed(error))
        },
        (SetupPhaseView::Storing, SetupEventView::Stored) => (
            SetupState { key, phase: SetupPhaseView::Running },
            SetupActionView::Run,
        ),
        (SetupPhaseView::Deleting { error }, SetupEventView::Deleted) => setup_ended(
            key,
            DisconnectReasonView::ConnectionFailed(error),
        ),
        _ => (state, SetupActionView::Ignore),
    }
}

impl SecretKey {
    fn copy(&self) -> (r: SecretKey)
        ensures
            r@ == self@,
    {
        SecretKey { host: self.host.clone(), port: self.port, user: self.user.clone() }
    }
}

impl SessionSetup {
    /// Starts to set up a session: the keyring is asked for the profile's password.
    pub fn start(profile: &ConnectionProfile) -> (r: (SessionSetup, SetupAction))
        ensures
            r.0@ == (SetupState { key: credential(*profile), phase: SetupPhaseView::LookingUp }),
            r.1@ == SetupActionView::Lookup(credential(*profile)),
    {
        let setup = SessionSetup { key: profile.secret_key(), phase: SetupPhase::LookingUp };
        (setup, SetupAction::Lookup(profile.secret_key()))
    }

    fn end(&mut self, reason: DisconnectReason) -> (r: SetupAction)
        ensures
            (final(self)@, r@) == setup_ended(old(self)@.key, reason@),
    {
        self.phase = SetupPhase::Ended;
        SetupAction::End(SessionEvent::Disconnected(reason))
    }

    fn connect(&mut self, password: String, from_store: bool, save: bool) -> (r: SetupAction)
        ensures
            (final(self)@, r@) == connecting(old(self)@.key, password@, from_store, save),
    {
        let action = SetupAction::Connect { password: password.clone() };
        self.phase = SetupPhase::Connecting { password, from_store, save };
        action
    }

    /// Tells the setup what happened, and gets the next thing to do.
    pub fn step(&mut self, event: SetupEvent) -> (r: SetupAction)
        ensures
            (final(self)@, r@) == setup_step(old(self)@, event@),
    {
        match (&self.phase, event) {
            (SetupPhase::LookingUp, SetupEvent::Cancelled) => self.end(
                DisconnectReason::UserInitiated,
            ),
            (SetupPhase::LookingUp, SetupEvent::LookedUp(Ok(Some(password)))) => self.connect(
                password,
                true,
                false,
            ),
            (SetupPhase::LookingUp, SetupEvent::LookedUp(_)) => {
                self.phase = SetupPhase::Prompting;
                SetupAction::Prompt(SessionEvent::CredsNeeded { username: self.key.user.clone() })
            },
            (SetupPhase::Prompting, SetupEvent::Cancelled) => self.end(
                DisconnectReason::UserInitiated,
            ),
            (SetupPhase::Prompting, SetupEvent::Answered(Some((password, save)))) => self.connect(
                password,
                false,
                save,
            ),
            (SetupPhase::Prompting, SetupEvent::Answered(None)) => self.end(
                DisconnectReason::ConnectionFailed("senha não fornecida".to_owned()),
            ),
            (SetupPhase::Connecting { password, from_store: _, save }, SetupEvent::Connected) => {
                if *save {
                    let action = SetupAction::Store {
                        key: self.key.copy(),
                        password: password.clone(),
                    };
                    self.phase = SetupPhase::Storing;
                    action
                } else {
                    self.phase = SetupPhase::Running;
                    SetupAction::Run
                }
            },
            (
                SetupPhase::Connecting { password: _, from_store, save: _ },
                SetupEvent::ConnectFailed { error, authentication_rejected },
            ) => {
                if *from_store && authentication_rejected {
                    let action = SetupAction::Delete(self.key.copy());
                    self.phase = SetupPhase::Deleting { error };
                    action
                } else {
                    self.end(DisconnectReason::ConnectionFailed(error))
                }
            },
            (SetupPhase::Storing, SetupEvent::Stored) => {
                self.phase = SetupPhase::Running;
                SetupAction::Run
            },
            (SetupPhase::Deleting { error }, SetupEvent::Deleted) => {
                let error = error.clone();
                self.end(DisconnectReason::ConnectionFailed(error))
            },
            _ => SetupAction::Ignore,
        }
    }
}

/// A setup with this key that has just started.
pub open spec fn setup_start(key: SecretKeyView) -> SetupState {
    SetupState { key, phase: SetupPhaseView::LookingUp }
}

/// The setup after these events happened in turn, and the action that answered each of them.
pub open spec fn setup_run(key: SecretKeyView, events: Seq<SetupEventView>) -> (
    SetupState,
    Seq<SetupActionView>,
)
    decreases events.len(),
{
    if events.len() == 0 {
        (setup_start(key), Seq::empty())
    } else {
        let (before, actions) = setup_run(key, events.drop_last());
        let (after, action) = setup_step(before, events.last());
        (after, actions.push(action))
    }
}

/// The events that the frontend is sent while a session is set up. `asked` are those that
/// connecting sends, such as the question whether to trust the server's certificate.
pub open spec fn setup_sent(
    actions: Seq<SetupActionView>,
    asked: Seq<SessionEventView>,
) -> Seq<SessionEventView>
    decreases actions.len(),
{
    if actions.len() == 0 {
        Seq::empty()
    } else {
        let sent = setup_sent(actions.drop_last(), asked);
        match actions.last() {
            SetupActionView::Prompt(event) => sent.push(event),
            SetupActionView::Connect { password } => sent + asked,
            SetupActionView::End(event) => sent.push(event),
            _ => sent,
        }
    }
}

/// Where the password comes from that a setup connects with.
pub open spec fn password_is_known(state: SetupState, events: Seq<SetupEventView>) -> bool {
    state.phase matches SetupPhaseView::Connecting { password, from_store, save } ==> {
        if from_store {
            !save && events.contains(SetupEventView::LookedUp(Ok(Some(password))))
        } else {
            events.contains(SetupEventView::Answered(Some((password, save))))
        }
    }
}

proof fn lemma_password_is_known(key: SecretKeyView, events: Seq<SetupEventView>)
    ensures
        setup_run(key, events).0.key == key,
        setup_run(key, events).1.len() == events.len(),
        password_is_known(setup_run(key, events).0, events),
    decreases events.len(),
{
    if events.len() > 0 {
        let before = events.drop_last();
        lemma_password_is_known(key, before);
        assert(events[events.len() - 1] == events.last());
        assert forall|event: SetupEventView| before.contains(event) implies events.contains(
            event,
        ) by {
            let i = choose|i: int| 0 <= i < before.len() && before[i] == event;
            assert(events[i] == event);
        }
    }
}

proof fn lemma_action_at(key: SecretKeyView, events: Seq<SetupEventView>, i: int)
    requires
        0 <= i < events.len(),
    ensures
        setup_run(key, events).1.len() == events.len(),
        setup_run(key, events).1[i] == setup_step(
            setup_run(key, events.take(i)).0,
            events[i],
        ).1,
    decreases events.len(),
{
    lemma_password_is_known(key, events.drop_last());
    if i < events.len() - 1 {
        lemma_action_at(key, events.drop_last(), i);
        assert(events.drop_last().take(i) =~= events.take(i));
    } else {
        assert(events.drop_last() =~= events.take(i));
    }
}

/// Law: a password is saved only under the profile's own key, only when the connection stands,
/// and only if the user typed it and asked to save it.
pub proof fn law_saved_password_was_typed_and_works(
    key: SecretKeyView,
    events: Seq<SetupEventView>,
    i: int,
)
    requires
        0 <= i < events.len(),
        setup_run(key, events).1[i] is Store,
    ensures
        events[i] is Connected,
        setup_run(key, events).1[i]->Store_key == key,
        events.take(i).contains(
            SetupEventView::Answered(Some((setup_run(key, events).1[i]->Store_password, true))),
        ),
{
    lemma_action_at(key, events, i);
    lemma_password_is_known(key, events.take(i));
}

/// Law: a password is removed only under the profile's own key, only when the server rejected
/// it, and only if it came from the keyring.
pub proof fn law_removed_password_was_stored_and_rejected(
    key: SecretKeyView,
    events: Seq<SetupEventView>,
    i: int,
)
    requires
        0 <= i < events.len(),
        setup_run(key, events).1[i] is Delete,
    ensures
        events[i] matches SetupEventView::ConnectFailed { error, authentication_rejected }
            && authentication_rejected,
        setup_run(key, events).1[i] == SetupActionView::Delete(key),
        exists|password: Seq<char>|
            #[trigger] events.take(i).contains(SetupEventView::LookedUp(Ok(Some(password)))),
{
    lemma_action_at(key, events, i);
    lemma_password_is_known(key, events.take(i));
    let before = setup_run(key, events.take(i)).0;
    if let SetupPhaseView::Connecting { password, from_store, save } = before.phase {
        assert(events.take(i).contains(SetupEventView::LookedUp(Ok(Some(password)))));
    }
}

/// Whether none of these events tells of a disconnection.
pub open spec fn none_tells_of_end(events: Seq<SessionEventView>) -> bool {
    forall|i: int| 0 <= i < events.len() ==> !((#[trigger] events[i]) is Disconnected)
}

/// Law: whatever happens to a session that is being set up, the frontend is told of the
/// disconnection once, when the setup ends, and of nothing after it. A setup that leads to
/// a running session tells of none. That holds whatever is asked while connecting.
pub proof fn law_setup_tells_of_its_end(
    key: SecretKeyView,
    events: Seq<SetupEventView>,
    asked: Seq<SessionEventView>,
)
    requires
        none_tells_of_end(asked),
    ensures
        tells_of_end(
            setup_sent(setup_run(key, events).1, asked),
            setup_run(key, events).0.phase is Ended,
        ),
    decreases events.len(),
{
    if events.len() > 0 {
        law_setup_tells_of_its_end(key, events.drop_last(), asked);
        let (before, actions) = setup_run(key, events.drop_last());
        let action = setup_step(before, events.last()).1;
        assert(actions.push(action).drop_last() =~= actions);
    }
}

/// How far a setup is.
pub open spec fn progress(phase: SetupPhaseView) -> int {
    match phase {
        SetupPhaseView::LookingUp => 0,
        SetupPhaseView::Prompting => 1,
        SetupPhaseView::Connecting { .. } => 2,
        SetupPhaseView::Storing => 3,
        SetupPhaseView::Deleting { .. } => 3,
        SetupPhaseView::Running => 4,
        SetupPhaseView::Ended => 4,
    }
}

proof fn lemma_connected_once(key: SecretKeyView, events: Seq<SetupEventView>, i: int)
    requires
        0 <= i < events.len(),
        setup_run(key, events).1[i] is Connect,
    ensures
        progress(setup_run(key, events).0.phase) >= 2,
        forall|j: int|
            0 <= j < events.len() && (#[trigger] setup_run(key, events).1[j]) is Connect ==> j == i,
    decreases events.len(),
{
    let before = events.drop_last();
    lemma_password_is_known(key, before);
    if i < before.len() {
        lemma_connected_once(key, before, i);
    } else {
        assert forall|j: int|
            0 <= j < before.len() && (#[trigger] setup_run(key, before).1[j]) is Connect implies j
            == i by {
            lemma_connected_once(key, before, j);
        }
    }
    assert forall|j: int|
        0 <= j < events.len() && (#[trigger] setup_run(key, events).1[j]) is Connect implies j
        == i by {
        if j < before.len() {
            assert(setup_run(key, before).1[j] == setup_run(key, events).1[j]);
        }
    }
}

/// Law: a session connects at most once while it is set up.
pub proof fn law_setup_connects_once(
    key: SecretKeyView,
    events: Seq<SetupEventView>,
    i: int,
    j: int,
)
    requires
        0 <= i < events.len(),
        0 <= j < events.len(),
        setup_run(key, events).1[i] is Connect,
        setup_run(key, events).1[j] is Connect,
    ensures
        i == j,
{
    lemma_connected_once(key, events, i);
}

/// All that the frontend of a session is sent: while it is set up, with what connecting asks
/// meanwhile, and, once it runs, that it is connected and what follows.
pub open spec fn session_sent(
    key: SecretKeyView,
    setup_events: Seq<SetupEventView>,
    asked: Seq<SessionEventView>,
    width: u16,
    height: u16,
    active_events: Seq<ActiveEventView>,
) -> Seq<SessionEventView> {
    let (setup, actions) = setup_run(key, setup_events);
    if setup.phase is Running {
        setup_sent(actions, asked).push(SessionEventView::Connected { width, height }) + active_run(
            idle(ActivePhase::Acting),
            active_events,
        ).1
    } else {
        setup_sent(actions, asked)
    }
}

/// Whether a session is over: its setup ended, or it ran and ended.
pub open spec fn session_over(
    key: SecretKeyView,
    setup_events: Seq<SetupEventView>,
    active_events: Seq<ActiveEventView>,
) -> bool {
    let setup = setup_run(key, setup_events).0;
    ||| setup.phase is Ended
    ||| setup.phase is Running && active_run(
        idle(ActivePhase::Acting),
        active_events,
    ).0.phase is Ended
}

/// Law: every session that is over told its frontend so, once and as the last thing, and no
/// other session did, whatever was asked while connecting.
pub proof fn law_session_tells_of_its_end(
    key: SecretKeyView,
    setup_events: Seq<SetupEventView>,
    asked: Seq<SessionEventView>,
    width: u16,
    height: u16,
    active_events: Seq<ActiveEventView>,
)
    requires
        none_tells_of_end(asked),
    ensures
        tells_of_end(
            session_sent(key, setup_events, asked, width, height, active_events),
            session_over(key, setup_events, active_events),
        ),
{
    law_setup_tells_of_its_end(key, setup_events, asked);
    law_active_session_tells_of_its_end(idle(ActivePhase::Acting), active_events);
}

/// What the frontend's queue is given of the events that a session sends. One that may be dropped
/// gets in where `room` says so, every other one always.
pub open spec fn queued(sent: Seq<SessionEventView>, room: spec_fn(int) -> bool) -> Seq<
    SessionEventView,
>
    decreases sent.len(),
{
    if sent.len() == 0 {
        Seq::empty()
    } else {
        let before = queued(sent.drop_last(), room);
        if droppable(sent.last()) && !room(sent.len() - 1) {
            before
        } else {
            before.push(sent.last())
        }
    }
}

/// What a request for the next event gets.
pub enum NextEvent {
    /// This event.
    Event(SessionEventView),
    /// The word that there will be no more.
    Closed,
    /// Nothing yet: the session goes on.
    Waiting,
}

/// What the request gets that comes after `n` others, from a queue that hands out its events
/// in order and is closed when the session that fills it is over.
pub open spec fn next_event(queue: Seq<SessionEventView>, over: bool, n: nat) -> NextEvent {
    if n < queue.len() {
        NextEvent::Event(queue[n as int])
    } else if over {
        NextEvent::Closed
    } else {
        NextEvent::Waiting
    }
}

proof fn lemma_queue_tells_of_end(
    sent: Seq<SessionEventView>,
    over: bool,
    room: spec_fn(int) -> bool,
)
    requires
        tells_of_end(sent, over),
    ensures
        tells_of_end(queued(sent, room), over),
    decreases sent.len(),
{
    if sent.len() > 0 {
        let before = sent.drop_last();
        assert forall|i: int| 0 <= i < before.len() implies !((
        #[trigger] before[i]) is Disconnected) by {
            assert(before[i] == sent[i]);
        }
        lemma_queue_tells_of_end(before, false, room);
        assert(sent[sent.len() - 1] == sent.last());
    }
}

/// Law: the stream of a session's events ends only once the session is over, be it set up or not.
/// The last event before the end tells of the disconnection, no earlier one does, and whoever asks
/// again is told of the end again. That holds whatever events were dropped for want of room.
pub proof fn law_stream_ends_after_the_disconnection(
    key: SecretKeyView,
    setup_events: Seq<SetupEventView>,
    asked: Seq<SessionEventView>,
    width: u16,
    height: u16,
    active_events: Seq<ActiveEventView>,
    room: spec_fn(int) -> bool,
    n: nat,
)
    requires
        none_tells_of_end(asked),
    ensures
        ({
            let sent = session_sent(key, setup_events, asked, width, height, active_events);
            let over = session_over(key, setup_events, active_events);
            let queue = queued(sent, room);
            &&& next_event(queue, over, n) is Closed ==> {
                &&& over
                &&& queue.len() > 0
                &&& n >= queue.len()
                &&& queue.last() is Disconnected
                &&& forall|i: int|
                    0 <= i < queue.len() - 1 ==> !((#[trigger] queue[i]) is Disconnected)
                &&& forall|later: nat|
                    later >= n ==> (#[trigger] next_event(queue, over, later)) is Closed
            }
            &&& over ==> next_event(queue, over, queue.len()) is Closed
        }),
{
    law_session_tells_of_its_end(key, setup_events, asked, width, height, active_events);
    lemma_queue_tells_of_end(
        session_sent(key, setup_events, asked, width, height, active_events),
        session_over(key, setup_events, active_events),
        room,
    );
}

/// Law: a password from the keyring is used as it is. Without one, be it that the keyring has none
/// or fails, the user is asked for the password of the key's own user.
pub proof fn law_keyring_comes_first(key: SecretKeyView, password: Seq<char>, error: Seq<char>)
    ensures
        ({
            let state = SetupState { key, phase: SetupPhaseView::LookingUp };
            let (found, connect) = setup_step(
                state,
                SetupEventView::LookedUp(Ok(Some(password))),
            );
            let (missing, prompt) = setup_step(state, SetupEventView::LookedUp(Ok(None)));
            &&& found.key == key
            &&& found.phase == SetupPhaseView::Connecting {
                password,
                from_store: true,
                save: false,
            }
            &&& connect == SetupActionView::Connect { password }
            &&& missing.key == key
            &&& missing.phase is Prompting
            &&& prompt == SetupActionView::Prompt(
                SessionEventView::CredsNeeded { username: key.user },
            )
            &&& setup_step(state, SetupEventView::LookedUp(Err(error))) == (missing, prompt)
        }),
{
}

/// Law: a password that the user types is used as it is, and is to be saved just where the user
/// said so. No password ends the session.
pub proof fn law_typed_password_is_used(key: SecretKeyView, password: Seq<char>, save: bool)
    ensures
        ({
            let state = SetupState { key, phase: SetupPhaseView::Prompting };
            let (typed, connect) = setup_step(
                state,
                SetupEventView::Answered(Some((password, save))),
            );
            let (ended, end) = setup_step(state, SetupEventView::Answered(None));
            &&& typed.key == key
            &&& typed.phase == SetupPhaseView::Connecting { password, from_store: false, save }
            &&& connect == SetupActionView::Connect { password }
            &&& ended.key == key
            &&& ended.phase is Ended
            &&& end == SetupActionView::End(
                SessionEventView::Disconnected(
                    DisconnectReasonView::ConnectionFailed("senha não fornecida"@),
                ),
            )
        }),
{
}

/// Law: once connected, the session runs, and the password that connected is saved before just
/// where it is to be saved.
pub proof fn law_connection_leads_to_a_running_session(
    key: SecretKeyView,
    password: Seq<char>,
    from_store: bool,
    save: bool,
)
    ensures
        ({
            let state = SetupState {
                key,
                phase: SetupPhaseView::Connecting { password, from_store, save },
            };
            let running = (
                SetupState { key, phase: SetupPhaseView::Running },
                SetupActionView::Run,
            );
            let (next, action) = setup_step(state, SetupEventView::Connected);
            &&& !save ==> (next, action) == running
            &&& save ==> next.key == key && next.phase is Storing && action
                == SetupActionView::Store { key, password }
            &&& save ==> setup_step(next, SetupEventView::Stored) == running
        }),
{
}

/// Law: a connection that fails ends the session with its error, word for word. The password is
/// removed before just where it came from the keyring and the server rejected it.
pub proof fn law_failed_connection_is_reported(
    key: SecretKeyView,
    password: Seq<char>,
    from_store: bool,
    save: bool,
    error: Seq<char>,
    rejected: bool,
)
    ensures
        ({
            let state = SetupState {
                key,
                phase: SetupPhaseView::Connecting { password, from_store, save },
            };
            let ended = (
                SetupState { key, phase: SetupPhaseView::Ended },
                SetupActionView::End(
                    SessionEventView::Disconnected(DisconnectReasonView::ConnectionFailed(error)),
                ),
            );
            let (next, action) = setup_step(
                state,
                SetupEventView::ConnectFailed { error, authentication_rejected: rejected },
            );
            &&& !(from_store && rejected) ==> (next, action) == ended
            &&& from_store && rejected ==> next.key == key && action == SetupActionView::Delete(key)
            &&& from_store && rejected ==> setup_step(next, SetupEventView::Deleted) == ended
        }),
{
}

/// Law: cancelling ends a session that waits for the keyring or for the user, and is left to the
/// connector, or to the running session, in every other phase.
pub proof fn law_cancelling_ends_the_wait(state: SetupState)
    ensures
        state.phase is LookingUp || state.phase is Prompting ==> setup_step(
            state,
            SetupEventView::Cancelled,
        ) == (
            SetupState { key: state.key, phase: SetupPhaseView::Ended },
            SetupActionView::End(
                SessionEventView::Disconnected(DisconnectReasonView::UserInitiated),
            ),
        ),
        !(state.phase is LookingUp || state.phase is Prompting) ==> setup_step(
            state,
            SetupEventView::Cancelled,
        ) == (state, SetupActionView::Ignore),
{
}

/// Law: an answer to something that was not asked changes nothing.
pub proof fn law_unasked_answers_change_nothing(state: SetupState, event: SetupEventView)
    requires
        event is LookedUp ==> state.phase !is LookingUp,
        event is Answered ==> state.phase !is Prompting,
        event is Connected || event is ConnectFailed ==> state.phase !is Connecting,
        event is Stored ==> state.phase !is Storing,
        event is Deleted ==> state.phase !is Deleting,
        event !is Cancelled,
    ensures
        setup_step(state, event) == (state, SetupActionView::Ignore),
{
}

/// Law: a session connects with just the password that the keyring gave or the user typed in the
/// event that made it connect, letter for letter.
pub proof fn law_connects_with_the_given_password(
    key: SecretKeyView,
    events: Seq<SetupEventView>,
    i: int,
)
    requires
        0 <= i < events.len(),
        setup_run(key, events).1[i] is Connect,
    ensures
        ({
            let password = setup_run(key, events).1[i]->Connect_password;
            ||| events[i] == SetupEventView::LookedUp(Ok(Some(password)))
            ||| events[i] == SetupEventView::Answered(Some((password, true)))
            ||| events[i] == SetupEventView::Answered(Some((password, false)))
        }),
{
    lemma_action_at(key, events, i);
}

/// Law: the user is only ever asked for the password of the key's own user, and the keyring is
/// only ever asked to save or to remove under the key itself.
pub proof fn law_setup_keeps_to_its_key(key: SecretKeyView, events: Seq<SetupEventView>, i: int)
    requires
        0 <= i < events.len(),
    ensures
        setup_run(key, events).0.key == key,
        setup_run(key, events).1[i] matches SetupActionView::Prompt(event) ==> event
            == (SessionEventView::CredsNeeded { username: key.user }),
        setup_run(key, events).1[i] matches SetupActionView::Store { key: k, password } ==> k
            == key,
        setup_run(key, events).1[i] matches SetupActionView::Delete(k) ==> k == key,
        setup_run(key, events).1[i] !is Lookup,
{
    lemma_action_at(key, events, i);
    lemma_password_is_known(key, events);
    lemma_password_is_known(key, events.take(i));
}

/// Law: a run goes on, event by event, from where it was.
pub proof fn law_setup_runs_step_by_step(
    key: SecretKeyView,
    events: Seq<SetupEventView>,
    event: SetupEventView,
)
    ensures
        setup_run(key, Seq::empty()).0 == (SetupState { key, phase: SetupPhaseView::LookingUp }),
        setup_run(key, Seq::empty()).1.len() == 0,
        ({
            let (before, actions) = setup_run(key, events);
            let (after, action) = setup_step(before, event);
            setup_run(key, events.push(event)) == (after, actions.push(action))
        }),
{
    assert(events.push(event).drop_last() =~= events);
}

/// Law: the contents of an event are what it holds.
pub proof fn law_setup_events_hold_their_contents(text: String, save: bool, rejected: bool)
    ensures
        SetupEvent::Cancelled@ == SetupEventView::Cancelled,
        SetupEvent::LookedUp(Ok(Some(text)))@ == SetupEventView::LookedUp(Ok(Some(text@))),
        SetupEvent::LookedUp(Ok(None))@ == SetupEventView::LookedUp(Ok(None)),
        SetupEvent::LookedUp(Err(text))@ == SetupEventView::LookedUp(Err(text@)),
        SetupEvent::Answered(Some((text, save)))@ == SetupEventView::Answered(Some((text@, save))),
        SetupEvent::Answered(None)@ == SetupEventView::Answered(None),
        SetupEvent::Connected@ == SetupEventView::Connected,
        (SetupEvent::ConnectFailed { error: text, authentication_rejected: rejected })@ == (
        SetupEventView::ConnectFailed { error: text@, authentication_rejected: rejected }),
        SetupEvent::Stored@ == SetupEventView::Stored,
        SetupEvent::Deleted@ == SetupEventView::Deleted,
{
}

/// Law: the contents of an action are what it holds.
pub proof fn law_setup_actions_hold_their_contents(
    key: SecretKey,
    password: String,
    event: SessionEvent,
)
    ensures
        SetupAction::Lookup(key)@ == SetupActionView::Lookup(key@),
        SetupAction::Prompt(event)@ == SetupActionView::Prompt(event@),
        (SetupAction::Connect { password })@ == (SetupActionView::Connect { password: password@ }),
        (SetupAction::Store { key, password })@ == (SetupActionView::Store {
            key: key@,
            password: password@,
        }),
        SetupAction::Delete(key)@ == SetupActionView::Delete(key@),
        SetupAction::Run@ == SetupActionView::Run,
        SetupAction::End(event)@ == SetupActionView::End(event@),
        SetupAction::Ignore@ == SetupActionView::Ignore,
{
}

} // verus!
