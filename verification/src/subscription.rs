//! A listener's private cursor over the hub's history.
use vstd::prelude::*;
use crate::hub::{Hub, HubView};
use crate::message::{Message, MessageView};

verus! {

/// What one receive call yields.
#[derive(Debug, PartialEq, Eq)]
pub enum Received {
    /// The next message for this listener, in publish order.
    Message(Message),
    /// This many messages were dropped for this listener because it fell
    /// behind. Not an end: the next call yields the oldest retained message.
    Lagged(u64),
    /// The hub was shut down. Terminal for the subscription.
    Closed,
    /// Nothing is pending: the listener has to wait for the next publish.
    Empty,
}

/// A [`Received`] as a mathematical value.
pub enum ReceivedView {
    Message(MessageView),
    Lagged(nat),
    Closed,
    Empty,
}

impl View for Received {
    type V = ReceivedView;

    open spec fn view(&self) -> ReceivedView {
        match *self {
            Received::Message(m) => ReceivedView::Message(m@),
            Received::Lagged(n) => ReceivedView::Lagged(n as nat),
            Received::Closed => ReceivedView::Closed,
            Received::Empty => ReceivedView::Empty,
        }
    }
}

/// Number of messages that are lost for a listener at `cursor`: those between
/// its cursor and the oldest retained position.
pub open spec fn dropped(hub: HubView, cursor: nat) -> nat {
    if cursor < hub.oldest() {
        (hub.oldest() - cursor) as nat
    } else {
        0
    }
}

/// What a listener at `cursor` receives from `hub`.
pub open spec fn outcome_at(hub: HubView, cursor: nat) -> ReceivedView {
    if hub.closed {
        ReceivedView::Closed
    } else if cursor < hub.oldest() {
        ReceivedView::Lagged(dropped(hub, cursor))
    } else if cursor < hub.total() {
        ReceivedView::Message(hub.history[cursor as int])
    } else {
        ReceivedView::Empty
    }
}

/// Where a listener at `cursor` stands after one receive: a lag moves it to
/// the oldest retained position, a message moves it on by one.
pub open spec fn cursor_after(hub: HubView, cursor: nat) -> nat {
    if hub.closed {
        cursor
    } else if cursor < hub.oldest() {
        hub.oldest()
    } else if cursor < hub.total() {
        cursor + 1
    } else {
        cursor
    }
}

/// Position of the first message that a listener at `cursor` can still get.
pub open spec fn first_available(hub: HubView, cursor: nat) -> nat {
    if cursor < hub.oldest() {
        hub.oldest()
    } else if cursor < hub.total() {
        cursor
    } else {
        hub.total()
    }
}

/// The messages that a listener at `cursor` gets from an open hub if it keeps
/// receiving until nothing is pending, in order.
pub open spec fn pending(hub: HubView, cursor: nat) -> Seq<MessageView> {
    hub.history.subrange(first_available(hub, cursor) as int, hub.total() as int)
}

/// A handle of one listener: the position of the next message it reads.
#[derive(Debug)]
pub struct Subscription {
    cursor: u64,
}

impl View for Subscription {
    type V = nat;

    closed spec fn view(&self) -> nat {
        self.cursor as nat
    }
}

impl Subscription {
    /// Position of the next message that this subscription reads.
    pub fn position(&self) -> (p: u64)
        ensures
            p == self@,
    {
        self.cursor
    }

    /// Yields the next outcome for this listener without waiting.
    ///
    /// A closed hub yields `Closed`, whatever is pending. A listener that fell
    /// behind the retained window gets `Lagged` with the exact number of
    /// messages it lost, and stands at the oldest retained message afterwards.
    /// Otherwise it gets the message at its cursor, or `Empty` at the end of
    /// the history.
    pub fn receive(&mut self, hub: &Hub) -> (got: Received)
        ensures
            got@ == outcome_at(hub@, old(self)@),
            final(self)@ == cursor_after(hub@, old(self)@),
    {
        if hub.is_closed() {
            return Received::Closed;
        }
        let oldest: u64 = hub.oldest();
        if self.cursor < oldest {
            let lost: u64 = oldest - self.cursor;
            self.cursor = oldest;
            return Received::Lagged(lost);
        }
        match hub.fetch(self.cursor) {
            Some(msg) => {
                self.cursor = self.cursor + 1;
                Received::Message(msg)
            },
            None => Received::Empty,
        }
    }
}

impl Hub {
    /// Creates a subscription that starts at "now": it sees the messages
    /// published from here on and none of the earlier ones. The one demand on
    /// an open hub is the limit of the subscription counter.
    pub fn subscribe(&mut self) -> (sub: Subscription)
        requires
            old(self)@.can_admit(),
        ensures
            final(self)@ == old(self)@.subscribe(),
            sub@ == old(self)@.total(),
    {
        let start: u64 = self.register();
        Subscription { cursor: start }
    }

    /// Lets a subscription go: the hub counts one listener less.
    pub fn unsubscribe(&mut self, sub: Subscription)
        ensures
            final(self)@ == old(self)@.unsubscribe(),
    {
        let _gone = sub;
        self.deregister();
    }
}

} // verus!
