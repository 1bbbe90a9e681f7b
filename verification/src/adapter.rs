//! The stream adapter: the decisions of one listener's delivery loop.
//!
//! The adapter holds no message and does no waiting. It is told which event
//! came first, the subscription's next outcome or the cancellation signal, and
//! answers with what the loop has to do.
use vstd::prelude::*;
use crate::hub::{Hub, HubView};
use crate::message::{views, Message, MessageView};
use crate::subscription::{
    cursor_after, first_available, outcome_at, pending, Received, ReceivedView, Subscription,
};

verus! {

/// The two states of an adapter. `Stopped` is terminal.
#[derive(Debug, PartialEq, Eq, Structural, Clone, Copy)]
pub enum AdapterState {
    Running,
    Stopped,
}

/// The event that resolved first in one iteration of the loop.
#[derive(Debug, PartialEq, Eq)]
pub enum Event {
    /// The subscription yielded an outcome.
    Received(Received),
    /// The cancellation signal fired.
    Cancelled,
}

/// An [`Event`] as a mathematical value.
pub enum EventView {
    Received(ReceivedView),
    Cancelled,
}

impl View for Event {
    type V = EventView;

    open spec fn view(&self) -> EventView {
        match *self {
            Event::Received(r) => EventView::Received(r@),
            Event::Cancelled => EventView::Cancelled,
        }
    }
}

/// What the loop has to do next.
#[derive(Debug, PartialEq, Eq)]
pub enum Action {
    /// Send one outbound event that carries this message, then go on.
    Emit(Message),
    /// Send nothing and receive again at once.
    Retry,
    /// Send nothing: wait until something is published or cancellation fires.
    Wait,
    /// End the produced sequence.
    Finish,
}

/// An [`Action`] as a mathematical value.
pub enum ActionView {
    Emit(MessageView),
    Retry,
    Wait,
    Finish,
}

impl View for Action {
    type V = ActionView;

    open spec fn view(&self) -> ActionView {
        match *self {
            Action::Emit(m) => ActionView::Emit(m@),
            Action::Retry => ActionView::Retry,
            Action::Wait => ActionView::Wait,
            Action::Finish => ActionView::Finish,
        }
    }
}

/// The state that follows `state` on `event`: a stopped adapter stays stopped,
/// and a running one stops on cancellation and on a closed hub.
pub open spec fn next_state(state: AdapterState, event: EventView) -> AdapterState {
    match (state, event) {
        (AdapterState::Stopped, _) => AdapterState::Stopped,
        (AdapterState::Running, EventView::Cancelled) => AdapterState::Stopped,
        (AdapterState::Running, EventView::Received(ReceivedView::Closed)) => AdapterState::Stopped,
        (AdapterState::Running, EventView::Received(_)) => AdapterState::Running,
    }
}

/// The action that `state` answers `event` with.
pub open spec fn action_on(state: AdapterState, event: EventView) -> ActionView {
    match (state, event) {
        (AdapterState::Stopped, _) => ActionView::Finish,
        (AdapterState::Running, EventView::Cancelled) => ActionView::Finish,
        (AdapterState::Running, EventView::Received(ReceivedView::Closed)) => ActionView::Finish,
        (AdapterState::Running, EventView::Received(ReceivedView::Message(m))) => ActionView::Emit(
            m,
        ),
        (AdapterState::Running, EventView::Received(ReceivedView::Lagged(_))) => ActionView::Retry,
        (AdapterState::Running, EventView::Received(ReceivedView::Empty)) => ActionView::Wait,
    }
}

/// The event that one iteration commits to when both sources are looked at
/// without waiting: cancellation wins, else the subscription's outcome counts.
pub open spec fn event_at(hub: HubView, cursor: nat, cancelled: bool) -> EventView {
    if cancelled {
        EventView::Cancelled
    } else {
        EventView::Received(outcome_at(hub, cursor))
    }
}

/// Whether an iteration reads from the subscription at all.
pub open spec fn reads(state: AdapterState, cancelled: bool) -> bool {
    state == AdapterState::Running && !cancelled
}

/// The state machine of one listener's stream.
#[derive(Debug)]
pub struct Adapter {
    state: AdapterState,
}

impl View for Adapter {
    type V = AdapterState;

    closed spec fn view(&self) -> AdapterState {
        self.state
    }
}

impl Adapter {
    /// A running adapter.
    pub fn new() -> (adapter: Adapter)
        ensures
            adapter@ == AdapterState::Running,
    {
        Adapter { state: AdapterState::Running }
    }

    /// The current state.
    pub fn state(&self) -> (s: AdapterState)
        ensures
            s == self@,
    {
        self.state
    }

    /// Whether the produced sequence has ended.
    pub fn is_stopped(&self) -> (stopped: bool)
        ensures
            stopped == (self@ == AdapterState::Stopped),
    {
        match self.state {
            AdapterState::Stopped => true,
            AdapterState::Running => false,
        }
    }

    /// Takes the event that came first and says what the loop does next.
    pub fn step(&mut self, event: Event) -> (action: Action)
        ensures
            final(self)@ == next_state(old(self)@, event@),
            action@ == action_on(old(self)@, event@),
    {
        match self.state {
            AdapterState::Stopped => Action::Finish,
            AdapterState::Running => match event {
                Event::Cancelled => {
                    self.state = AdapterState::Stopped;
                    Action::Finish
                },
                Event::Received(Received::Closed) => {
                    self.state = AdapterState::Stopped;
                    Action::Finish
                },
                Event::Received(Received::Message(msg)) => Action::Emit(msg),
                Event::Received(Received::Lagged(_)) => Action::Retry,
                Event::Received(Received::Empty) => Action::Wait,
            },
        }
    }

    /// One iteration of the loop over a subscription, without waiting.
    ///
    /// The cancellation signal is looked at first, in every iteration. A
    /// stopped or cancelled adapter does not touch the subscription.
    pub fn poll(&mut self, sub: &mut Subscription, hub: &Hub, cancelled: bool) -> (action: Action)
        ensures
            final(self)@ == next_state(old(self)@, event_at(hub@, old(sub)@, cancelled)),
            action@ == action_on(old(self)@, event_at(hub@, old(sub)@, cancelled)),
            final(sub)@ == if reads(old(self)@, cancelled) {
                cursor_after(hub@, old(sub)@)
            } else {
                old(sub)@
            },
    {
        if self.is_stopped() || cancelled {
            self.step(Event::Cancelled)
        } else {
            let got = sub.receive(hub);
            self.step(Event::Received(got))
        }
    }

    /// Runs the loop until it has to wait or to end, and returns the messages
    /// of the events that it produced, in order.
    ///
    /// A running adapter on an open hub, not cancelled, produces exactly the
    /// pending messages of the subscription, stays running and leaves the
    /// subscription at the end of the history. In every other case it produces
    /// nothing, stops, and leaves the subscription where it was.
    pub fn drain(&mut self, sub: &mut Subscription, hub: &Hub, cancelled: bool) -> (out: Vec<
        Message,
    >)
        ensures
            reads(old(self)@, cancelled) && !hub@.closed ==> {
                &&& views(out@) == pending(hub@, old(sub)@)
                &&& final(self)@ == AdapterState::Running
                &&& final(sub)@ == if old(sub)@ < hub@.total() {
                    hub@.total()
                } else {
                    old(sub)@
                }
            },
            !(reads(old(self)@, cancelled) && !hub@.closed) ==> {
                &&& out@.len() == 0
                &&& final(self)@ == AdapterState::Stopped
                &&& final(sub)@ == old(sub)@
            },
    {
        let ghost live = reads(self@, cancelled) && !hub@.closed;
        let ghost start = sub@;
        let mut out: Vec<Message> = Vec::new();
        let mut done: bool = false;
        proof {
            assert(views(out@) =~= Seq::<MessageView>::empty());
        }
        while !done
            invariant
                live == (reads(old(self)@, cancelled) && !hub@.closed),
                start == old(sub)@,
                live ==> self@ == AdapterState::Running && !cancelled,
                live ==> views(out@) + pending(hub@, sub@) == pending(hub@, start),
                live ==> start <= sub@,
                live && start < hub@.total() ==> sub@ <= hub@.total(),
                live && start >= hub@.total() ==> sub@ == start,
                live && done ==> sub@ >= hub@.total(),
                !live && !done ==> self@ == old(self)@,
                !live && done ==> self@ == AdapterState::Stopped,
                !live ==> out@.len() == 0 && sub@ == start,
            decreases
                if done {
                    0int
                } else {
                    1 + (hub@.total() - first_available(hub@, sub@)) + if sub@ < hub@.oldest() {
                        1int
                    } else {
                        0int
                    }
                },
        {
            let ghost before = sub@;
            let ghost shown = out@;
            let action = self.poll(sub, hub, cancelled);
            match action {
                Action::Emit(msg) => {
                    out.push(msg);
                    proof {
                        assert(views(out@) =~= views(shown).push(msg@));
                        assert(pending(hub@, before) =~= seq![msg@] + pending(hub@, sub@));
                        assert(views(out@) + pending(hub@, sub@) =~= views(shown) + pending(
                            hub@,
                            before,
                        ));
                    }
                },
                Action::Retry => {
                    proof {
                        assert(pending(hub@, before) =~= pending(hub@, sub@));
                    }
                },
                Action::Wait => {
                    done = true;
                    proof {
                        assert(pending(hub@, sub@) =~= Seq::<MessageView>::empty());
                    }
                },
                Action::Finish => {
                    done = true;
                },
            }
        }
        proof {
            if live {
                assert(pending(hub@, sub@) =~= Seq::<MessageView>::empty());
                assert(views(out@) + pending(hub@, sub@) =~= views(out@));
            }
        }
        out
    }
}

} // verus!
