//! The commanding half of a session: where each command of the frontend goes.
//!
//! A session listens on separate channels, so that lossy pointer traffic cannot starve essential
//! input, cancellation or clipboard state. A [`SessionController`] says which channel a command
//! takes; whoever owns the channels sends it.
use crate::clipboard::ClipboardBridge;
use crate::profiles::{ConnectionProfile, Resolution};
use vstd::prelude::*;

verus! {

/// An input of the user.
#[derive(Debug, Clone, Copy, PartialEq, Eq, Structural)]
pub enum InputEvent {
    /// The pointer is at this position of the remote desktop.
    MouseMove { x: u16, y: u16 },
    /// A key went down or up.
    Key { scancode: u8, extended: bool, pressed: bool },
    /// Any other discrete transition, such as a button or a wheel step, by the code that the
    /// frontend gave it.
    Other { code: u64 },
}

/// A command to a running session.
#[derive(Debug, Clone, Copy, PartialEq, Eq, Structural)]
pub enum SessionCommand {
    Input(InputEvent),
    CtrlAltDel,
    Disconnect,
}

/// Something to send to the session, and the channel that it takes.
#[derive(Debug, Clone, Copy, PartialEq, Eq, Structural)]
pub enum Outgoing {
    /// Replace the pointer position that the session watches.
    Pointer(InputEvent),
    /// Append to the queue that is reserved for discrete input, and wait for room in it.
    Essential(SessionCommand),
    /// Append to the command queue, if there is room.
    Command(SessionCommand),
    /// Replace the clipboard generation that the session watches.
    ClipboardGeneration(u64),
    /// Set the cancellation flag that the session watches.
    Cancel,
}

/// What the channels that lead to a session hold.
pub ghost struct Mailbox {
    /// The pointer position that the session watches.
    pub pointer: Option<InputEvent>,
    /// What was queued for discrete input so far, in order. Where that queue is full the sender
    /// waits for the session to read from it, so nothing sent to it is left out.
    pub essential: Seq<SessionCommand>,
    /// The commands that wait for the session.
    pub commands: Seq<SessionCommand>,
    /// How many commands can wait.
    pub command_capacity: nat,
    /// The clipboard generation that the session watches.
    pub clipboard_generation: u64,
    /// The cancellation flag that the session watches.
    pub cancelled: bool,
}

/// The channels of a new session.
pub open spec fn opened(channels: SessionChannels) -> Mailbox {
    Mailbox {
        pointer: channels.pointer_position,
        essential: Seq::empty(),
        commands: Seq::empty(),
        command_capacity: channels.command_capacity as nat,
        clipboard_generation: channels.clipboard_generation,
        cancelled: channels.cancelled,
    }
}

/// The channels after one more thing was sent: a watched value is replaced, a queue grows at
/// its end. A command that finds no room is dropped.
pub open spec fn delivered(mailbox: Mailbox, outgoing: Outgoing) -> Mailbox {
    match outgoing {
        Outgoing::Pointer(event) => Mailbox { pointer: Some(event), ..mailbox },
        Outgoing::Essential(command) => Mailbox {
            essential: mailbox.essential.push(command),
            ..mailbox
        },
        Outgoing::Command(command) => if mailbox.commands.len() < mailbox.command_capacity {
            Mailbox { commands: mailbox.commands.push(command), ..mailbox }
        } else {
            mailbox
        },
        Outgoing::ClipboardGeneration(generation) => Mailbox {
            clipboard_generation: generation,
            ..mailbox
        },
        Outgoing::Cancel => Mailbox { cancelled: true, ..mailbox },
    }
}

/// Where an input goes: pointer positions replace each other, everything else is queued.
pub open spec fn input_route(event: InputEvent) -> Outgoing {
    if event is MouseMove {
        Outgoing::Pointer(event)
    } else {
        Outgoing::Essential(SessionCommand::Input(event))
    }
}

/// The channels after these inputs were sent in turn.
pub open spec fn after_inputs(mailbox: Mailbox, events: Seq<InputEvent>) -> Mailbox
    decreases events.len(),
{
    if events.len() == 0 {
        mailbox
    } else {
        delivered(after_inputs(mailbox, events.drop_last()), input_route(events.last()))
    }
}

/// The pointer positions among these inputs.
pub open spec fn moves(events: Seq<InputEvent>) -> Seq<InputEvent> {
    events.filter(|event: InputEvent| event is MouseMove)
}

/// The commands that carry the discrete transitions among these inputs.
pub open spec fn discrete(events: Seq<InputEvent>) -> Seq<SessionCommand> {
    events.filter(|event: InputEvent| event !is MouseMove).map_values(
        |event: InputEvent| SessionCommand::Input(event),
    )
}

/// The generation that follows this one. After the last comes zero.
pub open spec fn next_generation(generation: u64) -> u64 {
    if generation == u64::MAX {
        0
    } else {
        (generation + 1) as u64
    }
}

/// What a controller knows of its session.
pub struct SessionController {
    clipboard_generation: u64,
    clipboard_bridge: ClipboardBridge,
}

/// The contents of a [`SessionController`].
pub ghost struct SessionControllerView {
    pub clipboard_generation: u64,
    pub local_text: Option<Seq<char>>,
}

impl View for SessionController {
    type V = SessionControllerView;

    closed spec fn view(&self) -> SessionControllerView {
        SessionControllerView {
            clipboard_generation: self.clipboard_generation,
            local_text: self.clipboard_bridge@,
        }
    }
}

/// How the channels of a new session are made.
#[derive(Debug, Clone, Copy, PartialEq, Eq, Structural)]
pub struct SessionChannels {
    /// How many events wait for the frontend at most.
    pub event_capacity: usize,
    /// How many commands wait for the session at most.
    pub command_capacity: usize,
    /// How many discrete transitions wait for the session at most.
    pub essential_capacity: usize,
    /// The first pointer position.
    pub pointer_position: Option<InputEvent>,
    /// The first clipboard generation.
    pub clipboard_generation: u64,
    /// Whether the session is cancelled.
    pub cancelled: bool,
    /// The size of the first framebuffer.
    pub framebuffer: Resolution,
}

/// Plans a session with `profile`: its controller, and the channels and framebuffer that it
/// needs. Nothing has been sent on them.
pub fn connect(profile: &ConnectionProfile) -> (r: (SessionController, SessionChannels))
    ensures
        r.0@ == (SessionControllerView { clipboard_generation: 0, local_text: None }),
        opened(r.1) == (Mailbox {
            pointer: None,
            essential: Seq::empty(),
            commands: Seq::empty(),
            command_capacity: 256,
            clipboard_generation: 0,
            cancelled: false,
        }),
        r.1 == (SessionChannels {
            event_capacity: 64,
            command_capacity: 256,
            essential_capacity: 512,
            pointer_position: None,
            clipboard_generation: 0,
            cancelled: false,
            framebuffer: profile.resolution,
        }),
{
    let controller = SessionController {
        clipboard_generation: 0,
        clipboard_bridge: ClipboardBridge::default(),
    };
    let channels = SessionChannels {
        event_capacity: 64,
        command_capacity: 256,
        essential_capacity: 512,
        pointer_position: None,
        clipboard_generation: 0,
        cancelled: false,
        framebuffer: profile.resolution,
    };
    (controller, channels)
}

impl SessionController {
    /// The text of the local clipboard, for the clipboard channel to read.
    pub fn clipboard_bridge(&self) -> (r: &ClipboardBridge)
        ensures
            r@ == self@.local_text,
    {
        &self.clipboard_bridge
    }

    /// Sends an input. Only the latest pointer position counts; every other input is a discrete
    /// transition, which has to stay in order and must not be discarded.
    pub fn send_input(&self, event: InputEvent) -> (r: Outgoing)
        ensures
            r == input_route(event),
            event is MouseMove ==> r == Outgoing::Pointer(event),
            event !is MouseMove ==> r == Outgoing::Essential(SessionCommand::Input(event)),
    {
        match event {
            InputEvent::MouseMove { .. } => Outgoing::Pointer(event),
            _ => Outgoing::Essential(SessionCommand::Input(event)),
        }
    }

    /// Sends Ctrl+Alt+Del, in order with the discrete input.
    pub fn send_ctrl_alt_del(&self) -> (r: Outgoing)
        ensures
            r == Outgoing::Essential(SessionCommand::CtrlAltDel),
    {
        Outgoing::Essential(SessionCommand::CtrlAltDel)
    }

    /// The local clipboard now holds `text`. The cache holds it before the new generation can
    /// reach the session, and the new generation always differs from the one before.
    pub fn set_local_clipboard_text(&mut self, text: String) -> (r: Outgoing)
        ensures
            final(self)@ == (SessionControllerView {
                clipboard_generation: next_generation(old(self)@.clipboard_generation),
                local_text: Some(text@),
            }),
            r == Outgoing::ClipboardGeneration(final(self)@.clipboard_generation),
            final(self)@.clipboard_generation != old(self)@.clipboard_generation,
            final(self)@.clipboard_generation as int == (old(self)@.clipboard_generation + 1)
                % 0x1_0000_0000_0000_0000,
    {
        self.clipboard_bridge.set_local_text(text);
        let next: u64 = self.clipboard_generation.wrapping_add(1);
        self.clipboard_generation = next;
        Outgoing::ClipboardGeneration(next)
    }

    /// Ends the session: it is cancelled at once, and asked to disconnect if there is room for
    /// the command.
    pub fn disconnect(&self) -> (r: (Outgoing, Outgoing))
        ensures
            r == (Outgoing::Cancel, Outgoing::Command(SessionCommand::Disconnect)),
    {
        (Outgoing::Cancel, Outgoing::Command(SessionCommand::Disconnect))
    }
}

/// Law: pointer positions are coalesced to the latest one, and discrete transitions all stay in
/// the queue reserved for them, in order, after what was there. No input touches anything else.
pub proof fn law_inputs_are_routed(mailbox: Mailbox, events: Seq<InputEvent>)
    ensures
        after_inputs(mailbox, events) == (Mailbox {
            pointer: if moves(events).len() > 0 {
                Some(moves(events).last())
            } else {
                mailbox.pointer
            },
            essential: mailbox.essential + discrete(events),
            ..mailbox
        }),
    decreases events.len(),
{
    reveal(Seq::filter);
    if events.len() == 0 {
        assert(mailbox.essential + discrete(events) =~= mailbox.essential);
    } else {
        let before = events.drop_last();
        let event = events.last();
        law_inputs_are_routed(mailbox, before);
        if event is MouseMove {
            assert(discrete(events) =~= discrete(before));
            assert(moves(events).last() == event);
        } else {
            assert(discrete(events) =~= discrete(before).push(SessionCommand::Input(event)));
            assert(moves(events) =~= moves(before));
            assert(mailbox.essential + discrete(events) =~= (mailbox.essential + discrete(
                before,
            )).push(SessionCommand::Input(event)));
        }
    }
}

/// Law: however many pointer positions are sent, they take no room in any queue.
pub proof fn law_moves_take_no_room(mailbox: Mailbox, events: Seq<InputEvent>)
    requires
        forall|i: int| 0 <= i < events.len() ==> #[trigger] events[i] is MouseMove,
    ensures
        after_inputs(mailbox, events).essential == mailbox.essential,
        after_inputs(mailbox, events).commands == mailbox.commands,
        events.len() > 0 ==> after_inputs(mailbox, events).pointer == Some(events.last()),
    decreases events.len(),
{
    if events.len() > 0 {
        law_moves_take_no_room(mailbox, events.drop_last());
    }
}

/// Law: a disconnection cancels the session whether there is room for the command or not. The
/// command is queued where there is room, and dropped where there is none; nothing else changes.
pub proof fn law_disconnect_always_cancels(mailbox: Mailbox)
    ensures
        ({
            let after = delivered(
                delivered(mailbox, Outgoing::Cancel),
                Outgoing::Command(SessionCommand::Disconnect),
            );
            after == (Mailbox {
                commands: if mailbox.commands.len() < mailbox.command_capacity {
                    mailbox.commands.push(SessionCommand::Disconnect)
                } else {
                    mailbox.commands
                },
                cancelled: true,
                ..mailbox
            })
        }),
{
}

/// Law: no queue of commands outgrows its capacity, whatever is sent.
pub proof fn law_commands_fit(mailbox: Mailbox, outgoing: Outgoing)
    requires
        mailbox.commands.len() <= mailbox.command_capacity,
    ensures
        delivered(mailbox, outgoing).commands.len() <= delivered(mailbox, outgoing).command_capacity,
        delivered(mailbox, outgoing).command_capacity == mailbox.command_capacity,
{
}

/// Law: the next input either replaces the pointer position, if it is one, or is queued behind
/// everything that was queued before, as it is. It changes nothing else.
pub proof fn law_next_input_takes_its_channel(
    mailbox: Mailbox,
    events: Seq<InputEvent>,
    event: InputEvent,
)
    ensures
        ({
            let before = after_inputs(mailbox, events);
            let after = after_inputs(mailbox, events.push(event));
            &&& after.pointer == if event is MouseMove {
                Some(event)
            } else {
                before.pointer
            }
            &&& after.essential == if event is MouseMove {
                before.essential
            } else {
                before.essential.push(SessionCommand::Input(event))
            }
            &&& after.commands == before.commands
            &&& after.command_capacity == before.command_capacity
            &&& after.clipboard_generation == before.clipboard_generation
            &&& after.cancelled == before.cancelled
        }),
        after_inputs(mailbox, Seq::empty()) == mailbox,
{
    assert(events.push(event).drop_last() =~= events);
}

/// Law: each thing that is sent changes the one channel that it takes.
pub proof fn law_each_channel_is_its_own(
    mailbox: Mailbox,
    event: InputEvent,
    command: SessionCommand,
    generation: u64,
)
    ensures
        delivered(mailbox, Outgoing::Pointer(event)) == (Mailbox {
            pointer: Some(event),
            ..mailbox
        }),
        delivered(mailbox, Outgoing::Essential(command)) == (Mailbox {
            essential: mailbox.essential.push(command),
            ..mailbox
        }),
        mailbox.commands.len() < mailbox.command_capacity ==> delivered(
            mailbox,
            Outgoing::Command(command),
        ) == (Mailbox { commands: mailbox.commands.push(command), ..mailbox }),
        mailbox.commands.len() >= mailbox.command_capacity ==> delivered(
            mailbox,
            Outgoing::Command(command),
        ) == mailbox,
        delivered(mailbox, Outgoing::ClipboardGeneration(generation)) == (Mailbox {
            clipboard_generation: generation,
            ..mailbox
        }),
        delivered(mailbox, Outgoing::Cancel) == (Mailbox { cancelled: true, ..mailbox }),
{
}

/// Law: generations count up by one, and begin again at zero after the last.
pub proof fn law_generations_count_up(generation: u64)
    ensures
        next_generation(generation) as int == (generation + 1) % 0x1_0000_0000_0000_0000,
{
}

} // verus!
