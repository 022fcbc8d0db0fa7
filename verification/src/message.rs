//! The chat message value that the broadcast hub fans out, and the system
//! notices and display lines built from it.

use vstd::prelude::*;
use vstd::string::StringExecFns;

verus! {

/// The sender id carried by system notices (joins and leaves). The relay
/// assigns every real connection an id below this, so a system notice is
/// never mistaken for a connection's own message.
pub const SYSTEM_ID: usize = usize::MAX;

/// One chat message: who sent it, under what display name, and its text.
/// Immutable once built; the hub shares it with every subscriber.
#[derive(Clone, Debug)]
pub struct Message {
    pub id: usize,
    pub name: String,
    pub msg: String,
}

/// The mathematical value of a `Message`.
#[verifier::ext_equal]
pub struct MessageView {
    pub id: int,
    pub name: Seq<char>,
    pub msg: Seq<char>,
}

impl View for Message {
    type V = MessageView;

    open spec fn view(&self) -> MessageView {
        MessageView { id: self.id as int, name: self.name@, msg: self.msg@ }
    }
}

/// The line shown to a receiving client for a message.
pub open spec fn spec_line(name: Seq<char>, msg: Seq<char>) -> Seq<char> {
    name + ": "@ + msg + "\r\n"@
}

/// The body of the system notice published when a connection joins.
pub open spec fn spec_connect_body(name: Seq<char>) -> Seq<char> {
    name + " connected"@
}

/// The body of the system notice published when a connection leaves.
pub open spec fn spec_disconnect_body(name: Seq<char>) -> Seq<char> {
    name + " disconnected"@
}

impl Message {
    /// A copy of this message with the same contents.
    pub fn duplicate(&self) -> (r: Message)
        ensures
            r@ == self@,
    {
        Message { id: self.id, name: self.name.clone(), msg: self.msg.clone() }
    }
}

/// The `"<name>: <body>"` line written to a client's socket for a message,
/// terminated like a chat line on screen.
pub fn format_line(m: &Message) -> (r: String)
    ensures
        r@ == spec_line(m.name@, m.msg@),
{
    let mut r = m.name.clone();
    r.append(": ");
    r.append(m.msg.as_str());
    r.append("\r\n");
    r
}

/// The system notice announcing that `name` has joined.
pub fn connect_notice(name: &str) -> (m: Message)
    ensures
        m@.id == SYSTEM_ID as int,
        m@.name == name@,
        m@.msg == spec_connect_body(name@),
{
    let mut body = name.to_owned();
    body.append(" connected");
    Message { id: SYSTEM_ID, name: name.to_owned(), msg: body }
}

/// The system notice announcing that `name` has left.
pub fn disconnect_notice(name: &str) -> (m: Message)
    ensures
        m@.id == SYSTEM_ID as int,
        m@.name == name@,
        m@.msg == spec_disconnect_body(name@),
{
    let mut body = name.to_owned();
    body.append(" disconnected");
    Message { id: SYSTEM_ID, name: name.to_owned(), msg: body }
}

} // verus!
