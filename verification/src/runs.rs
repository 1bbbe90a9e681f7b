//! One listener next to a hub, through any interleaving of publishes,
//! receives and a shutdown.
//!
//! A run is a sequence of steps. The listener's record keeps the positions and
//! the messages it got and the number it lost, so that what holds of every
//! reachable state can be stated and proved once.
use vstd::prelude::*;
use crate::adapter::{action_on, event_at, next_state, reads, ActionView, AdapterState};
use crate::hub::HubView;
use crate::message::MessageView;
use crate::subscription::{cursor_after, outcome_at, ReceivedView};

verus! {

/// One thing that happens to the hub or to the listener.
pub enum Step {
    /// Somebody publishes this message.
    Publish(MessageView),
    /// The listener receives once.
    Receive,
    /// The hub is shut down.
    Close,
}

/// What a listener has lived through.
pub struct Record {
    /// Where its cursor stands.
    pub cursor: nat,
    /// The positions of the messages it got, in the order it got them.
    pub seen: Seq<nat>,
    /// The messages it got, in the order it got them.
    pub got: Seq<MessageView>,
    /// The sum of the lag counts it was told.
    pub lost: nat,
    /// How often it was told that the hub is closed.
    pub closed_seen: nat,
}

impl Record {
    /// The record of a subscription that was just created on `hub`.
    pub open spec fn fresh(hub: HubView) -> Record {
        Record { cursor: hub.total(), seen: Seq::empty(), got: Seq::empty(), lost: 0, closed_seen: 0 }
    }

    /// The record after one receive on `hub`.
    pub open spec fn receive(self, hub: HubView) -> Record {
        let next = cursor_after(hub, self.cursor);
        match outcome_at(hub, self.cursor) {
            ReceivedView::Message(m) => Record {
                cursor: next,
                seen: self.seen.push(self.cursor),
                got: self.got.push(m),
                ..self
            },
            ReceivedView::Lagged(n) => Record { cursor: next, lost: self.lost + n, ..self },
            ReceivedView::Closed => Record { closed_seen: self.closed_seen + 1, ..self },
            ReceivedView::Empty => self,
        }
    }
}

/// Hub and record after one step.
pub open spec fn after_step(hub: HubView, record: Record, step: Step) -> (HubView, Record) {
    match step {
        Step::Publish(m) => (hub.publish(m), record),
        Step::Receive => (hub, record.receive(hub)),
        Step::Close => (hub.close(), record),
    }
}

/// Hub and record after all of `steps`, first to last.
pub open spec fn after_run(hub: HubView, record: Record, steps: Seq<Step>) -> (HubView, Record)
    decreases steps.len(),
{
    if steps.len() == 0 {
        (hub, record)
    } else {
        let before = after_run(hub, record, steps.drop_last());
        after_step(before.0, before.1, steps.last())
    }
}

/// What holds between a hub and the record of a listener that subscribed at
/// position `start`:
/// the cursor lies between `start` and the end of the history; every position
/// it has passed was either delivered or counted as lost; the delivered
/// positions are strictly increasing, so no message came twice and none out
/// of order; none lies before `start`; and each delivered message is the one
/// that the history holds at its position.
pub open spec fn consistent(hub: HubView, record: Record, start: nat) -> bool {
    &&& start <= record.cursor <= hub.total()
    &&& record.seen.len() + record.lost == record.cursor - start
    &&& record.got.len() == record.seen.len()
    &&& forall|i: int|
        0 <= i < record.seen.len() ==> start <= #[trigger] record.seen[i] < record.cursor
    &&& forall|i: int, j: int|
        0 <= i < j < record.seen.len() ==> #[trigger] record.seen[i] < #[trigger] record.seen[j]
    &&& forall|i: int|
        0 <= i < record.seen.len() ==> #[trigger] record.got[i] == hub.history[record.seen[i] as int]
}

/// One step keeps hub and record consistent, and never rewrites the history
/// that is already there.
pub proof fn law_step_keeps_consistent(hub: HubView, record: Record, start: nat, step: Step)
    requires
        consistent(hub, record, start),
    ensures
        consistent(after_step(hub, record, step).0, after_step(hub, record, step).1, start),
        hub.history.is_prefix_of(after_step(hub, record, step).0.history),
        hub.closed ==> after_step(hub, record, step).0.closed,
        hub.closed ==> after_step(hub, record, step).1.got == record.got,
        hub.closed ==> after_step(hub, record, step).0.history == hub.history,
{
    let next = after_step(hub, record, step);
    match step {
        Step::Publish(m) => {
            assert forall|i: int| 0 <= i < record.seen.len() implies #[trigger] next.1.got[i]
                == next.0.history[next.1.seen[i] as int] by {
                assert(record.got[i] == hub.history[record.seen[i] as int]);
            }
        },
        Step::Receive => {
            match outcome_at(hub, record.cursor) {
                ReceivedView::Message(m) => {
                    assert forall|i: int| 0 <= i < next.1.seen.len() implies #[trigger] next.1.got[i]
                        == next.0.history[next.1.seen[i] as int] by {
                        if i < record.seen.len() {
                            assert(record.got[i] == hub.history[record.seen[i] as int]);
                        }
                    }
                    assert forall|i: int, j: int| 0 <= i < j < next.1.seen.len() implies
                        #[trigger] next.1.seen[i] < #[trigger] next.1.seen[j] by {
                        if j < record.seen.len() {
                            assert(record.seen[i] < record.seen[j]);
                        } else {
                            assert(record.seen[i] < record.cursor);
                        }
                    }
                },
                _ => {},
            }
        },
        Step::Close => {},
    }
}

/// Through any interleaving of publishes, receives and a shutdown, a listener
/// that subscribed to an open or closed hub gets only messages published after
/// it subscribed, each at most once and in publish order, unchanged; whatever
/// it passed without getting it was reported to it as lost; and the history
/// that was there before the run is still there.
pub proof fn law_run_keeps_consistent(hub: HubView, steps: Seq<Step>)
    ensures
        consistent(
            after_run(hub.subscribe(), Record::fresh(hub), steps).0,
            after_run(hub.subscribe(), Record::fresh(hub), steps).1,
            hub.total(),
        ),
        hub.history.is_prefix_of(after_run(hub.subscribe(), Record::fresh(hub), steps).0.history),
    decreases steps.len(),
{
    if steps.len() > 0 {
        law_run_keeps_consistent(hub, steps.drop_last());
        let before = after_run(hub.subscribe(), Record::fresh(hub), steps.drop_last());
        law_step_keeps_consistent(before.0, before.1, hub.total(), steps.last());
    }
}

/// Once the hub is closed, no run delivers anything: the hub stays closed,
/// its history stays as it is, and the listener's messages stay the ones it
/// had.
pub proof fn law_nothing_after_close(hub: HubView, record: Record, start: nat, steps: Seq<Step>)
    requires
        hub.closed,
        consistent(hub, record, start),
    ensures
        after_run(hub, record, steps).0.closed,
        after_run(hub, record, steps).0.history == hub.history,
        after_run(hub, record, steps).1.got == record.got,
        consistent(after_run(hub, record, steps).0, after_run(hub, record, steps).1, start),
    decreases steps.len(),
{
    if steps.len() > 0 {
        law_nothing_after_close(hub, record, start, steps.drop_last());
        let before = after_run(hub, record, steps.drop_last());
        law_step_keeps_consistent(before.0, before.1, start, steps.last());
    }
}

/// One thing that happens to the hub or to a listener's stream.
pub enum StreamStep {
    /// Somebody publishes this message.
    Publish(MessageView),
    /// The stream's loop runs one iteration.
    Poll,
    /// The cancellation signal fires. It stays fired.
    Cancel,
    /// The hub is shut down.
    Close,
}

/// A listener's stream: its adapter, its subscription's record, whether the
/// cancellation signal has fired, and the messages of the events it produced.
pub struct Stream {
    pub state: AdapterState,
    pub cancelled: bool,
    pub record: Record,
    pub emitted: Seq<MessageView>,
}

impl Stream {
    /// The stream that a listener opens on `hub`.
    pub open spec fn open(hub: HubView) -> Stream {
        Stream {
            state: AdapterState::Running,
            cancelled: false,
            record: Record::fresh(hub),
            emitted: Seq::empty(),
        }
    }

    /// The stream after one iteration of its loop on `hub`.
    pub open spec fn poll(self, hub: HubView) -> Stream {
        let event = event_at(hub, self.record.cursor, self.cancelled);
        Stream {
            state: next_state(self.state, event),
            cancelled: self.cancelled,
            record: if reads(self.state, self.cancelled) {
                self.record.receive(hub)
            } else {
                self.record
            },
            emitted: match action_on(self.state, event) {
                ActionView::Emit(m) => self.emitted.push(m),
                _ => self.emitted,
            },
        }
    }

    /// Whether the stream can never produce another event.
    pub open spec fn ended(self) -> bool {
        self.state == AdapterState::Stopped || self.cancelled
    }
}

/// Hub and stream after one step.
pub open spec fn after_stream_step(hub: HubView, stream: Stream, step: StreamStep) -> (
    HubView,
    Stream,
) {
    match step {
        StreamStep::Publish(m) => (hub.publish(m), stream),
        StreamStep::Poll => (hub, stream.poll(hub)),
        StreamStep::Cancel => (hub, Stream { cancelled: true, ..stream }),
        StreamStep::Close => (hub.close(), stream),
    }
}

/// Hub and stream after all of `steps`, first to last.
pub open spec fn after_stream_run(hub: HubView, stream: Stream, steps: Seq<StreamStep>) -> (
    HubView,
    Stream,
)
    decreases steps.len(),
{
    if steps.len() == 0 {
        (hub, stream)
    } else {
        let before = after_stream_run(hub, stream, steps.drop_last());
        after_stream_step(before.0, before.1, steps.last())
    }
}

/// What holds between a hub and a stream that was opened at position `start`:
/// its record is consistent with the hub; it emitted exactly the messages it
/// received, in that order, and a lag emitted nothing; and it was told at most
/// once that the hub is closed, and stopped when it was.
pub open spec fn stream_consistent(hub: HubView, stream: Stream, start: nat) -> bool {
    &&& consistent(hub, stream.record, start)
    &&& stream.emitted == stream.record.got
    &&& stream.record.closed_seen <= 1
    &&& stream.record.closed_seen == 1 ==> stream.state == AdapterState::Stopped
}

/// One step keeps hub and stream consistent. A stream that has stopped, or
/// whose cancellation signal has fired, stays so and produces nothing more,
/// whatever the step; so does every stream once the hub is closed.
pub proof fn law_stream_step(hub: HubView, stream: Stream, start: nat, step: StreamStep)
    requires
        stream_consistent(hub, stream, start),
    ensures
        stream_consistent(
            after_stream_step(hub, stream, step).0,
            after_stream_step(hub, stream, step).1,
            start,
        ),
        stream.ended() ==> after_stream_step(hub, stream, step).1.ended(),
        stream.ended() || hub.closed ==> after_stream_step(hub, stream, step).1.emitted
            == stream.emitted,
        hub.closed ==> after_stream_step(hub, stream, step).0.closed,
        stream.ended() ==> after_stream_step(hub, stream, step).1.record == stream.record,
{
    match step {
        StreamStep::Publish(m) => {
            law_step_keeps_consistent(hub, stream.record, start, Step::Publish(m));
        },
        StreamStep::Poll => {
            law_step_keeps_consistent(hub, stream.record, start, Step::Receive);
        },
        StreamStep::Cancel => {},
        StreamStep::Close => {
            law_step_keeps_consistent(hub, stream.record, start, Step::Close);
        },
    }
}

/// Through any interleaving of publishes, iterations, cancellation and
/// shutdown, a listener's stream emits only messages published after it was
/// opened, each at most once, in publish order and unchanged, and it is told
/// at most once that the hub is closed.
pub proof fn law_stream_run(hub: HubView, steps: Seq<StreamStep>)
    ensures
        stream_consistent(
            after_stream_run(hub.subscribe(), Stream::open(hub), steps).0,
            after_stream_run(hub.subscribe(), Stream::open(hub), steps).1,
            hub.total(),
        ),
    decreases steps.len(),
{
    if steps.len() > 0 {
        law_stream_run(hub, steps.drop_last());
        let before = after_stream_run(hub.subscribe(), Stream::open(hub), steps.drop_last());
        law_stream_step(before.0, before.1, hub.total(), steps.last());
    }
}

/// Once the cancellation signal has fired, or the stream has stopped, or the
/// hub is closed, no run makes the stream emit anything more, however many
/// messages are published meanwhile. A cancelled or stopped stream does not
/// even move its cursor.
pub proof fn law_stream_ends_for_good(
    hub: HubView,
    stream: Stream,
    start: nat,
    steps: Seq<StreamStep>,
)
    requires
        stream_consistent(hub, stream, start),
        stream.ended() || hub.closed,
    ensures
        after_stream_run(hub, stream, steps).1.emitted == stream.emitted,
        stream.ended() ==> after_stream_run(hub, stream, steps).1.ended(),
        stream.ended() ==> after_stream_run(hub, stream, steps).1.record == stream.record,
        hub.closed ==> after_stream_run(hub, stream, steps).0.closed,
        stream_consistent(
            after_stream_run(hub, stream, steps).0,
            after_stream_run(hub, stream, steps).1,
            start,
        ),
    decreases steps.len(),
{
    if steps.len() > 0 {
        law_stream_ends_for_good(hub, stream, start, steps.drop_last());
        let before = after_stream_run(hub, stream, steps.drop_last());
        law_stream_step(before.0, before.1, start, steps.last());
    }
}

} // verus!
