//! The per-connection state machine: handshake, relay, close. Each
//! connection's event loop waits on its socket and its hub subscription and
//! feeds whichever event arrives into `Handler::step`, which decides the
//! next state and at most one action (write a line to this socket, or
//! publish a message to the hub). All decisions — self-echo suppression,
//! the system notices, when to close — are made here; the loop around it
//! only performs I/O.

use vstd::prelude::*;
use vstd::string::StringExecFns;
use crate::codec::FrameError;
use crate::message::Message;
use crate::message::MessageView;
use crate::message::SYSTEM_ID;
use crate::message::connect_notice;
use crate::message::disconnect_notice;
use crate::message::format_line;
use crate::message::spec_connect_body;
use crate::message::spec_disconnect_body;
use crate::message::spec_line;
use crate::text::spec_trim;
use crate::text::trim_text;

verus! {

/// Where a connection stands in its lifecycle.
#[derive(Clone, Copy, Debug, PartialEq, Eq, Structural)]
pub enum HandlerState {
    /// Waiting for the one frame carrying the client's display name.
    Handshaking,
    /// Exchanging messages through the hub.
    Relaying,
    /// Terminal: the socket is released and no further event does anything.
    Closed,
}

/// One event a connection's loop can observe.
pub enum Event {
    /// One frame arrived from this connection's own socket, read as text.
    FrameReceived(String),
    /// Reading a frame from this socket failed.
    ReadFailed(FrameError),
    /// The next message on this connection's hub subscription.
    HubMessage(Message),
    /// Writing to this socket failed.
    WriteFailed,
}

/// What the loop must do after a step: at most one of these per event.
pub enum Action {
    /// Encode this line as one frame and write it to this connection's
    /// socket.
    WriteLine(String),
    /// Publish this message to the hub.
    Publish(Message),
}

/// One connection handler.
pub struct Handler {
    pub id: usize,
    pub name: String,
    pub state: HandlerState,
}

/// The mathematical value of an event.
#[verifier::ext_equal]
pub enum EventView {
    FrameReceived(Seq<char>),
    ReadFailed(FrameError),
    HubMessage(MessageView),
    WriteFailed,
}

/// The mathematical value of an action.
#[verifier::ext_equal]
pub enum ActionView {
    WriteLine(Seq<char>),
    Publish(MessageView),
}

/// The mathematical value of a handler.
#[verifier::ext_equal]
pub struct HandlerView {
    pub id: int,
    pub name: Seq<char>,
    pub state: HandlerState,
}

impl View for Event {
    type V = EventView;

    open spec fn view(&self) -> EventView {
        match self {
            Event::FrameReceived(t) => EventView::FrameReceived(t@),
            Event::ReadFailed(e) => EventView::ReadFailed(*e),
            Event::HubMessage(m) => EventView::HubMessage(m@),
            Event::WriteFailed => EventView::WriteFailed,
        }
    }
}

impl View for Action {
    type V = ActionView;

    open spec fn view(&self) -> ActionView {
        match self {
            Action::WriteLine(l) => ActionView::WriteLine(l@),
            Action::Publish(m) => ActionView::Publish(m@),
        }
    }
}

impl View for Handler {
    type V = HandlerView;

    open spec fn view(&self) -> HandlerView {
        HandlerView { id: self.id as int, name: self.name@, state: self.state }
    }
}

/// The whole protocol of one connection: from a state and an event, the
/// next state and the action owed, if any.
///
/// - Handshaking: the first frame, trimmed, becomes the display name; a
///   join notice is published and relaying begins. A read failure closes
///   the connection silently, before it ever joins the hub.
/// - Relaying: a hub message from anyone else is written out as a line;
///   one bearing this connection's own id is suppressed. A frame from the
///   socket is published under this connection's id and name. A read
///   failure publishes a leave notice and closes; a write failure closes.
/// - Closed: inert.
pub open spec fn spec_step(h: HandlerView, ev: EventView) -> (HandlerView, Option<ActionView>) {
    match h.state {
        HandlerState::Handshaking => match ev {
            EventView::FrameReceived(raw) => {
                let name = spec_trim(raw);
                (
                    HandlerView { id: h.id, name: name, state: HandlerState::Relaying },
                    Some(
                        ActionView::Publish(
                            MessageView {
                                id: SYSTEM_ID as int,
                                name: name,
                                msg: spec_connect_body(name),
                            },
                        ),
                    ),
                )
            },
            EventView::ReadFailed(_) => (
                HandlerView { id: h.id, name: h.name, state: HandlerState::Closed },
                None,
            ),
            _ => (h, None),
        },
        HandlerState::Relaying => match ev {
            EventView::HubMessage(m) => if m.id == h.id {
                (h, None)
            } else {
                (h, Some(ActionView::WriteLine(spec_line(m.name, m.msg))))
            },
            EventView::FrameReceived(text) => (
                h,
                Some(ActionView::Publish(MessageView { id: h.id, name: h.name, msg: text })),
            ),
            EventView::ReadFailed(_) => (
                HandlerView { id: h.id, name: h.name, state: HandlerState::Closed },
                Some(
                    ActionView::Publish(
                        MessageView {
                            id: SYSTEM_ID as int,
                            name: h.name,
                            msg: spec_disconnect_body(h.name),
                        },
                    ),
                ),
            ),
            EventView::WriteFailed => (
                HandlerView { id: h.id, name: h.name, state: HandlerState::Closed },
                None,
            ),
        },
        HandlerState::Closed => (h, None),
    }
}

impl Handler {
    /// A fresh handler for an accepted connection, before its handshake.
    pub fn new(id: usize) -> (h: Handler)
        ensures
            h@.id == id as int,
            h@.name == Seq::<char>::empty(),
            h@.state is Handshaking,
    {
        Handler { id, name: String::new(), state: HandlerState::Handshaking }
    }

    /// Feed one event through the connection's state machine, exactly as
    /// `spec_step` says.
    pub fn step(&mut self, ev: Event) -> (r: Option<Action>)
        ensures
            final(self)@ == spec_step(old(self)@, ev@).0,
            match r {
                Some(a) => spec_step(old(self)@, ev@).1 == Some(a@),
                None => spec_step(old(self)@, ev@).1 is None,
            },
    {
        match self.state {
            HandlerState::Handshaking => match ev {
                Event::FrameReceived(raw) => {
                    let name = trim_text(raw.as_str());
                    self.name = name.clone();
                    self.state = HandlerState::Relaying;
                    Some(Action::Publish(connect_notice(name.as_str())))
                },
                Event::ReadFailed(_) => {
                    self.state = HandlerState::Closed;
                    None
                },
                _ => None,
            },
            HandlerState::Relaying => match ev {
                Event::HubMessage(m) => {
                    if m.id == self.id {
                        None
                    } else {
                        Some(Action::WriteLine(format_line(&m)))
                    }
                },
                Event::FrameReceived(text) => {
                    Some(
                        Action::Publish(Message { id: self.id, name: self.name.clone(), msg: text }),
                    )
                },
                Event::ReadFailed(_) => {
                    self.state = HandlerState::Closed;
                    Some(Action::Publish(disconnect_notice(self.name.as_str())))
                },
                Event::WriteFailed => {
                    self.state = HandlerState::Closed;
                    None
                },
            },
            HandlerState::Closed => None,
        }
    }
}

/// The prompt a freshly accepted connection is sent before its handshake.
pub fn handshake_prompt() -> (r: String)
    ensures
        r@ == "What is your name: "@,
{
    "What is your name: ".to_owned()
}

/// Self-echo suppression: a hub message bearing a handler's own id never
/// produces a write, in any state.
pub proof fn lemma_no_self_echo(h: HandlerView, m: MessageView)
    requires
        m.id == h.id,
    ensures
        spec_step(h, EventView::HubMessage(m)).1 is None,
{
}

/// The only thing ever written to a connection's socket after the
/// handshake prompt is the formatted line of a hub message from a
/// different sender, while relaying.
pub proof fn lemma_write_only_for_others(h: HandlerView, ev: EventView)
    ensures
        spec_step(h, ev).1 matches Some(ActionView::WriteLine(line)) ==> {
            &&& h.state is Relaying
            &&& ev matches EventView::HubMessage(m) && m.id != h.id && line == spec_line(
                m.name,
                m.msg,
            )
        },
{
}

/// Closed is terminal: no event changes a closed handler or makes it act,
/// so a connection that is gone can neither publish nor hold anything up.
pub proof fn lemma_closed_terminal(h: HandlerView, ev: EventView)
    requires
        h.state is Closed,
    ensures
        spec_step(h, ev) == (h, None::<ActionView>),
{
}

/// A connection's identifier never changes once assigned.
pub proof fn lemma_id_stable(h: HandlerView, ev: EventView)
    ensures
        spec_step(h, ev).0.id == h.id,
{
}

/// Everything a relaying handler publishes for a received frame carries its
/// own id and name, so other handlers can attribute and suppress correctly.
pub proof fn lemma_publish_attribution(h: HandlerView, text: Seq<char>)
    requires
        h.state is Relaying,
    ensures
        spec_step(h, EventView::FrameReceived(text)).1 == Some(
            ActionView::Publish(MessageView { id: h.id, name: h.name, msg: text }),
        ),
{
}

} // verus!
