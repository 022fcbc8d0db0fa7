//! The broadcast hub: the one piece of state shared by all connection
//! handlers. Publishes go into a single serialized log that every
//! subscriber observes in the same order; each subscription privately
//! tracks its own position. The overflow policy is the lag-and-skip one: a
//! subscriber that falls more than `capacity` messages behind has its
//! oldest unread messages dropped and is told how many it missed, while
//! publishers and other subscribers are never slowed or touched — the hub
//! itself keeps no per-subscriber state at all.

use vstd::prelude::*;
use crate::message::Message;
use crate::message::MessageView;

verus! {

/// The shared broadcast channel. Its mathematical content is the sequence
/// of every message published so far, in the one order all subscribers see.
pub struct Hub {
    pub log: Vec<Message>,
    pub capacity: usize,
}

/// One connection's private cursor into the hub's log.
pub struct Subscription {
    pub next: usize,
}

/// What one receive attempt yields.
pub enum RecvOutcome {
    /// Nothing published past this subscription's position yet.
    Empty,
    /// The subscription lagged more than `capacity` messages behind: this
    /// many oldest unread messages were dropped for it (and only for it),
    /// and its position now sits `capacity` behind the newest.
    Lagged(usize),
    /// The next message, in publish order.
    Msg(Message),
}

/// The mathematical value of a receive outcome.
#[verifier::ext_equal]
pub enum RecvView {
    Empty,
    Lagged(int),
    Msg(MessageView),
}

impl View for RecvOutcome {
    type V = RecvView;

    open spec fn view(&self) -> RecvView {
        match self {
            RecvOutcome::Empty => RecvView::Empty,
            RecvOutcome::Lagged(n) => RecvView::Lagged(*n as int),
            RecvOutcome::Msg(m) => RecvView::Msg(m@),
        }
    }
}

/// What a receive at position `pos` on a log of `len` published messages
/// yields, and the position it leaves the subscription at.
pub open spec fn spec_recv(log: Seq<MessageView>, capacity: int, pos: int) -> (RecvView, int)
    recommends
        0 <= pos <= log.len(),
{
    if pos == log.len() {
        (RecvView::Empty, pos)
    } else if log.len() - pos > capacity {
        (RecvView::Lagged(log.len() - capacity - pos), log.len() - capacity)
    } else {
        (RecvView::Msg(log[pos]), pos + 1)
    }
}

impl Subscription {
    /// A subscription is valid for a hub while its cursor is inside the log.
    pub open spec fn wf(&self, h: &Hub) -> bool {
        self.next <= h.msgs().len()
    }
}

impl Hub {
    /// The sequence of every message published so far.
    pub open spec fn msgs(&self) -> Seq<MessageView> {
        self.log@.map_values(|m: Message| m@)
    }

    /// A hub retains at least one message for lagging subscribers.
    pub open spec fn wf(&self) -> bool {
        self.capacity >= 1
    }

    /// A fresh hub with the given retention capacity and nothing published.
    pub fn new(capacity: usize) -> (h: Hub)
        requires
            capacity >= 1,
        ensures
            h.wf(),
            h.capacity == capacity,
            h.msgs() == Seq::<MessageView>::empty(),
    {
        let h = Hub { log: Vec::new(), capacity };
        proof {
            assert(h.msgs() =~= Seq::<MessageView>::empty());
        }
        h
    }

    /// Subscribe from now on: the new subscription sees only messages
    /// published after this point.
    pub fn subscribe(&self) -> (s: Subscription)
        ensures
            s.wf(self),
            s.next == self.msgs().len(),
    {
        Subscription { next: self.log.len() }
    }

    /// Publish one message. This never blocks, never fails, and depends on
    /// no subscriber: it appends to the log and leaves everything else as
    /// it was, however far behind any subscription is.
    pub fn publish(&mut self, m: Message)
        ensures
            final(self).msgs() == old(self).msgs().push(m@),
            final(self).capacity == old(self).capacity,
    {
        self.log.push(m);
        proof {
            assert(self.msgs() =~= old(self).msgs().push(m@));
        }
    }

    /// Receive the next message for one subscription: the log entry at its
    /// position, or a lag report that skips it forward, as `spec_recv`
    /// says. Only `s` moves; the hub is read, never written.
    pub fn recv(&self, s: &mut Subscription) -> (r: RecvOutcome)
        requires
            self.wf(),
            old(s).wf(self),
        ensures
            final(s).wf(self),
            r@ == spec_recv(self.msgs(), self.capacity as int, old(s).next as int).0,
            final(s).next as int == spec_recv(self.msgs(), self.capacity as int, old(s).next as int).1,
    {
        if s.next == self.log.len() {
            RecvOutcome::Empty
        } else if self.log.len() - s.next > self.capacity {
            let oldest = self.log.len() - self.capacity;
            let skipped = oldest - s.next;
            s.next = oldest;
            RecvOutcome::Lagged(skipped)
        } else {
            let m = self.log[s.next].duplicate();
            s.next = s.next + 1;
            RecvOutcome::Msg(m)
        }
    }
}

/// In-order fan-out: a subscriber whose position is within the retention
/// window receives exactly the log entry at its position and advances one
/// step, so every subscriber sees the published messages in publish order.
pub proof fn lemma_ordered_delivery(log: Seq<MessageView>, capacity: int, pos: int)
    requires
        0 <= pos < log.len(),
        log.len() - pos <= capacity,
    ensures
        spec_recv(log, capacity, pos) == (RecvView::Msg(log[pos]), pos + 1),
{
}

/// Eventual delivery: once a message is published, a subscriber that was
/// caught up receives exactly that message next, whoever published it.
pub proof fn lemma_publish_then_recv(log: Seq<MessageView>, capacity: int, m: MessageView)
    requires
        capacity >= 1,
    ensures
        spec_recv(log.push(m), capacity, log.len() as int) == (
            RecvView::Msg(m),
            log.len() as int + 1,
        ),
{
    assert(log.push(m)[log.len() as int] == m);
}

/// Publish isolation: a publish only appends, so everything already
/// pending for any subscriber — wherever its cursor stands — is still
/// there afterwards, in the same order. One connection publishing (a chat
/// line or its own leave notice) can never drop, reorder, or delay what
/// another subscriber has yet to receive.
pub proof fn lemma_publish_preserves_pending(log: Seq<MessageView>, m: MessageView, pos: int)
    requires
        0 <= pos <= log.len(),
    ensures
        log.push(m).subrange(pos, log.len() as int) == log.subrange(pos, log.len() as int),
{
    assert(log.push(m).subrange(pos, log.len() as int) =~= log.subrange(pos, log.len() as int));
}

/// The drop policy: a subscriber more than `capacity` behind loses exactly
/// its oldest unread messages, is told how many, and lands `capacity`
/// behind the newest — after which the whole retained window is still
/// ahead of it, in order.
pub proof fn lemma_lag_drops_oldest(log: Seq<MessageView>, capacity: int, pos: int)
    requires
        capacity >= 1,
        0 <= pos <= log.len(),
        log.len() - pos > capacity,
    ensures
        spec_recv(log, capacity, pos) == (
            RecvView::Lagged(log.len() - capacity - pos),
            log.len() - capacity,
        ),
        spec_recv(log, capacity, log.len() - capacity).0 == RecvView::Msg(
            log[log.len() - capacity],
        ),
{
}

} // verus!
