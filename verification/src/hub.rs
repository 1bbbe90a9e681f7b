//! The broadcast hub: a bounded window over everything that was published.
use vstd::prelude::*;
use std::collections::VecDeque;
use crate::message::{Message, MessageView};

verus! {

/// Number of slots of the hub that a server starts with.
pub const DEFAULT_CAPACITY: usize = 1024;

/// What a publish call reports back.
#[derive(Debug, PartialEq, Eq, Clone, Copy)]
pub enum PublishOutcome {
    /// The message was handed to this many live subscriptions.
    Delivered(u64),
    /// Nobody was listening. This is an expected condition, not a failure.
    NoSubscribers,
}

/// The hub as a mathematical value.
pub struct HubView {
    /// Number of messages that the hub retains for slow subscribers.
    pub capacity: nat,
    /// Every message accepted so far, oldest first.
    pub history: Seq<MessageView>,
    /// Number of live subscriptions.
    pub subscribers: nat,
    /// Whether the hub has been shut down.
    pub closed: bool,
}

impl HubView {
    /// A hub that has seen nothing yet.
    pub open spec fn fresh(capacity: nat) -> HubView {
        HubView { capacity, history: Seq::empty(), subscribers: 0, closed: false }
    }

    /// Number of messages accepted so far: the position that the next one gets.
    pub open spec fn total(self) -> nat {
        self.history.len()
    }

    /// Position of the oldest message that is still retained.
    pub open spec fn oldest(self) -> nat {
        if self.history.len() > self.capacity {
            (self.history.len() - self.capacity) as nat
        } else {
            0
        }
    }

    /// The hub after one publish: an open hub appends, a closed one ignores.
    pub open spec fn publish(self, msg: MessageView) -> HubView {
        if self.closed {
            self
        } else {
            HubView { history: self.history.push(msg), ..self }
        }
    }

    /// The hub after publishing `msgs` one after the other.
    pub open spec fn publish_all(self, msgs: Seq<MessageView>) -> HubView
        decreases msgs.len(),
    {
        if msgs.len() == 0 {
            self
        } else {
            self.publish_all(msgs.drop_last()).publish(msgs.last())
        }
    }

    /// What a publish on this hub reports.
    pub open spec fn outcome(self) -> PublishOutcome {
        if self.subscribers == 0 {
            PublishOutcome::NoSubscribers
        } else {
            PublishOutcome::Delivered(self.subscribers as u64)
        }
    }

    /// The hub after one more listener joined. A closed hub registers nobody.
    pub open spec fn subscribe(self) -> HubView {
        if self.closed {
            self
        } else {
            HubView { subscribers: self.subscribers + 1, ..self }
        }
    }

    /// The hub after one listener left.
    pub open spec fn unsubscribe(self) -> HubView {
        if self.subscribers == 0 {
            self
        } else {
            HubView { subscribers: (self.subscribers - 1) as nat, ..self }
        }
    }

    /// The hub after shutdown: closed, and without subscriptions.
    pub open spec fn close(self) -> HubView {
        HubView { subscribers: 0, closed: true, ..self }
    }

    /// Whether the position counter has room for one more message. A closed
    /// hub takes none, so it always has.
    pub open spec fn can_accept(self) -> bool {
        self.closed || self.history.len() < u64::MAX
    }

    /// Whether the subscription counter has room for one more listener. A
    /// closed hub registers none, so it always has.
    pub open spec fn can_admit(self) -> bool {
        self.closed || self.subscribers < u64::MAX
    }

    /// What every hub value that the library builds satisfies.
    pub open spec fn valid(self) -> bool {
        &&& 0 < self.capacity <= usize::MAX
        &&& self.history.len() <= u64::MAX
        &&& self.subscribers <= u64::MAX
        &&& self.closed ==> self.subscribers == 0
    }
}

/// The process-wide fan-out point.
///
/// It retains the last `capacity` messages. Older ones are gone for every
/// subscription that has not read them yet.
pub struct Hub {
    capacity: usize,
    buffer: VecDeque<Message>,
    total: u64,
    subscribers: u64,
    closed: bool,
    history: Ghost<Seq<MessageView>>,
}

impl View for Hub {
    type V = HubView;

    closed spec fn view(&self) -> HubView {
        HubView {
            capacity: self.capacity as nat,
            history: self.history@,
            subscribers: self.subscribers as nat,
            closed: self.closed,
        }
    }
}

impl Hub {
    /// The buffer holds exactly the retained end of the history.
    #[verifier::type_invariant]
    spec fn well_formed(&self) -> bool {
        &&& self.capacity > 0
        &&& self.total == self.history@.len()
        &&& self.buffer@.len() <= self.capacity
        &&& self.buffer@.len() == if self.total > self.capacity { self.capacity as int } else { self.total as int }
        &&& forall|i: int| 0 <= i < self.buffer@.len() ==>
            (#[trigger] self.buffer@[i])@ == self.history@[self.total - self.buffer@.len() + i]
        &&& self.closed ==> self.subscribers == 0
    }

    /// An open hub with `capacity` slots, no history and no subscriptions.
    pub fn new(capacity: usize) -> (hub: Hub)
        requires
            capacity > 0,
        ensures
            hub@ == HubView::fresh(capacity as nat),
    {
        Hub {
            capacity,
            buffer: VecDeque::new(),
            total: 0,
            subscribers: 0,
            closed: false,
            history: Ghost(Seq::empty()),
        }
    }

    /// Number of slots.
    pub fn capacity(&self) -> (c: usize)
        ensures
            c == self@.capacity,
    {
        proof {
            use_type_invariant(self);
        }
        self.capacity
    }

    /// Number of live subscriptions.
    pub fn subscriber_count(&self) -> (n: u64)
        ensures
            n == self@.subscribers,
    {
        proof {
            use_type_invariant(self);
        }
        self.subscribers
    }

    /// Whether the hub has been shut down. Every hub is valid as a
    /// mathematical value, and a caller learns so here.
    pub fn is_closed(&self) -> (c: bool)
        ensures
            c == self@.closed,
            self@.valid(),
    {
        proof {
            use_type_invariant(self);
        }
        self.closed
    }

    /// Number of messages accepted so far.
    pub fn total(&self) -> (n: u64)
        ensures
            n == self@.total(),
    {
        proof {
            use_type_invariant(self);
        }
        self.total
    }

    /// Position of the oldest message that is still retained.
    pub fn oldest(&self) -> (n: u64)
        ensures
            n == self@.oldest(),
    {
        proof {
            use_type_invariant(self);
        }
        let kept: usize = self.buffer.len();
        self.total - kept as u64
    }

    /// Hands `msg` to every live subscription and returns at once.
    ///
    /// The message takes the next position of the history. Without
    /// subscriptions the call still succeeds and says so in its outcome. On a
    /// closed hub nothing changes. The one demand on an open hub is the limit
    /// of the position counter.
    pub fn publish(&mut self, msg: Message) -> (outcome: PublishOutcome)
        requires
            old(self)@.can_accept(),
        ensures
            final(self)@ == old(self)@.publish(msg@),
            outcome == old(self)@.outcome(),
    {
        proof {
            use_type_invariant(&*self);
        }
        let outcome = if self.subscribers == 0 {
            PublishOutcome::NoSubscribers
        } else {
            PublishOutcome::Delivered(self.subscribers)
        };
        if !self.closed {
            // Buffer, counter and history change together: the hub is taken
            // apart and put back whole.
            let mut taken = Hub::new(1);
            core::mem::swap(self, &mut taken);
            let Hub { capacity, buffer, total, subscribers, closed, history } = taken;
            let mut buffer = buffer;
            if buffer.len() == capacity {
                let _dropped = buffer.pop_front();
            }
            let ghost grown = history@.push(msg@);
            buffer.push_back(msg);
            *self = Hub { capacity, buffer, total: total + 1, subscribers, closed, history: Ghost(grown) };
        }
        outcome
    }

    /// Registers one more listener and returns the position it starts at:
    /// the end of the history, so that it sees future publishes only.
    pub(crate) fn register(&mut self) -> (start: u64)
        requires
            old(self)@.can_admit(),
        ensures
            final(self)@ == old(self)@.subscribe(),
            start == old(self)@.total(),
    {
        proof {
            use_type_invariant(&*self);
        }
        if !self.closed {
            self.subscribers = self.subscribers + 1;
        }
        self.total
    }

    /// Takes one listener off the count, if there is one.
    pub(crate) fn deregister(&mut self)
        ensures
            final(self)@ == old(self)@.unsubscribe(),
    {
        proof {
            use_type_invariant(&*self);
        }
        if self.subscribers > 0 {
            self.subscribers = self.subscribers - 1;
        }
    }

    /// Shuts the hub down: no message is accepted or delivered from now on,
    /// and every subscription is let go.
    pub fn close(&mut self)
        ensures
            final(self)@ == old(self)@.close(),
    {
        proof {
            use_type_invariant(&*self);
        }
        self.subscribers = 0;
        self.closed = true;
    }

    /// A copy of the retained message at `position`, if it is still retained.
    pub fn fetch(&self, position: u64) -> (found: Option<Message>)
        ensures
            found is Some <==> self@.oldest() <= position < self@.total(),
            found is Some ==> found->Some_0@ == self@.history[position as int],
    {
        proof {
            use_type_invariant(self);
        }
        let kept: usize = self.buffer.len();
        let oldest: u64 = self.total - kept as u64;
        if oldest <= position && position < self.total {
            let offset: usize = (position - oldest) as usize;
            Some(self.buffer[offset].clone())
        } else {
            None
        }
    }
}

} // verus!
