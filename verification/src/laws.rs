//! What holds of the hub, its subscriptions and the adapter as a whole.
use vstd::prelude::*;
use crate::adapter::{action_on, event_at, next_state, ActionView, AdapterState, EventView};
use crate::hub::HubView;
use crate::message::MessageView;
use crate::subscription::{
    cursor_after, dropped, first_available, outcome_at, pending, ReceivedView,
};

verus! {

/// Publishing a batch on an open hub appends the batch to the history, in
/// order, and changes nothing else.
pub proof fn law_publish_all_appends(hub: HubView, msgs: Seq<MessageView>)
    requires
        !hub.closed,
    ensures
        hub.publish_all(msgs) == (HubView { history: hub.history + msgs, ..hub }),
    decreases msgs.len(),
{
    if msgs.len() == 0 {
        assert(hub.history + msgs =~= hub.history);
    } else {
        law_publish_all_appends(hub, msgs.drop_last());
        assert((hub.history + msgs.drop_last()).push(msgs.last()) =~= hub.history + msgs);
    }
}

/// Successive receives walk through the pending messages: a message is the
/// head of what is pending and leaves the rest pending, a lag leaves all of it
/// pending, and nothing is pending when the outcome is `Empty`.
pub proof fn law_receive_walks_pending(hub: HubView, cursor: nat)
    requires
        !hub.closed,
    ensures
        match outcome_at(hub, cursor) {
            ReceivedView::Message(m) => pending(hub, cursor) == seq![m] + pending(
                hub,
                cursor_after(hub, cursor),
            ),
            ReceivedView::Lagged(n) => n > 0 && pending(hub, cursor) == pending(
                hub,
                cursor_after(hub, cursor),
            ) && !(outcome_at(hub, cursor_after(hub, cursor)) is Lagged),
            ReceivedView::Empty => pending(hub, cursor).len() == 0,
            ReceivedView::Closed => false,
        },
{
    match outcome_at(hub, cursor) {
        ReceivedView::Message(m) => {
            assert(pending(hub, cursor) =~= seq![m] + pending(hub, cursor_after(hub, cursor)));
        },
        ReceivedView::Lagged(n) => {
            assert(pending(hub, cursor) =~= pending(hub, cursor_after(hub, cursor)));
        },
        _ => {},
    }
}

/// A subscription that exists when messages are published gets each of them
/// exactly once and in publish order, as long as no more than the hub's
/// capacity accumulate unread: what is pending for it is exactly the batch.
pub proof fn law_subscriber_sees_later_publishes(hub: HubView, msgs: Seq<MessageView>)
    requires
        !hub.closed,
        msgs.len() <= hub.capacity,
    ensures
        pending(hub.subscribe().publish_all(msgs), hub.total()) == msgs,
{
    law_publish_all_appends(hub.subscribe(), msgs);
    assert(pending(hub.subscribe().publish_all(msgs), hub.total()) =~= msgs);
}

/// A subscription never gets a message that was published before it was
/// created, whatever is published afterwards: its cursor starts behind every
/// earlier position and never moves back, and what it still gets is an end of
/// the later batch.
pub proof fn law_no_back_delivery(hub: HubView, earlier: nat, later: Seq<MessageView>)
    requires
        !hub.closed,
        earlier < hub.total(),
    ensures
        ({
            let start = hub.total();
            let after = hub.subscribe().publish_all(later);
            &&& earlier < start <= first_available(after, start)
            &&& pending(after, start) == later.subrange(
                first_available(after, start) - start,
                later.len() as int,
            )
        }),
{
    law_publish_all_appends(hub.subscribe(), later);
    let start = hub.total();
    let after = hub.subscribe().publish_all(later);
    assert(pending(after, start) =~= later.subrange(
        first_available(after, start) - start,
        later.len() as int,
    ));
}

/// A receive never moves a cursor back, and a message that it yields is the
/// one at the cursor's own position.
pub proof fn law_cursor_only_advances(hub: HubView, cursor: nat)
    ensures
        cursor <= cursor_after(hub, cursor),
        outcome_at(hub, cursor) is Message ==> {
            &&& cursor < hub.total()
            &&& outcome_at(hub, cursor) == ReceivedView::Message(hub.history[cursor as int])
            &&& cursor_after(hub, cursor) == cursor + 1
        },
{
}

/// A subscriber that stalls while more messages than the hub's capacity
/// accumulate gets a lag outcome first. Its count is exactly the number of
/// messages lost for this subscriber: the lost ones and the ones still
/// pending add up to everything published since its cursor. The next receive
/// yields the oldest retained message.
pub proof fn law_lag_counts_dropped(hub: HubView, cursor: nat)
    requires
        !hub.closed,
        hub.capacity > 0,
        cursor <= hub.total(),
        hub.total() - cursor > hub.capacity,
    ensures
        outcome_at(hub, cursor) == ReceivedView::Lagged(dropped(hub, cursor)),
        dropped(hub, cursor) == hub.total() - cursor - hub.capacity,
        dropped(hub, cursor) + pending(hub, cursor).len() == hub.total() - cursor,
        pending(hub, cursor).len() == hub.capacity,
        outcome_at(hub, cursor_after(hub, cursor)) == ReceivedView::Message(
            hub.history[hub.oldest() as int],
        ),
{
}

/// A subscriber that stalls through a batch longer than the capacity loses
/// the batch's beginning and still gets its last `capacity` messages, in order.
pub proof fn law_stalled_subscriber_keeps_newest(hub: HubView, msgs: Seq<MessageView>)
    requires
        !hub.closed,
        hub.capacity > 0,
        msgs.len() > hub.capacity,
    ensures
        ({
            let after = hub.subscribe().publish_all(msgs);
            &&& outcome_at(after, hub.total()) == ReceivedView::Lagged(
                (msgs.len() - hub.capacity) as nat,
            )
            &&& pending(after, hub.total()) == msgs.subrange(
                msgs.len() - hub.capacity,
                msgs.len() as int,
            )
        }),
{
    law_publish_all_appends(hub.subscribe(), msgs);
    let after = hub.subscribe().publish_all(msgs);
    assert(pending(after, hub.total()) =~= msgs.subrange(
        msgs.len() - hub.capacity,
        msgs.len() as int,
    ));
}

/// One subscription's receive does not depend on any other subscription: the
/// outcome is a function of the hub's history and of its own cursor, and the
/// hub is the same whoever joins or leaves.
pub proof fn law_subscriptions_are_independent(hub: HubView, cursor: nat)
    ensures
        outcome_at(hub.subscribe(), cursor) == outcome_at(hub, cursor),
        outcome_at(hub.unsubscribe(), cursor) == outcome_at(hub, cursor),
        cursor_after(hub.subscribe(), cursor) == cursor_after(hub, cursor),
        cursor_after(hub.unsubscribe(), cursor) == cursor_after(hub, cursor),
{
}

/// When the cancellation signal has fired, an iteration ends the sequence
/// and emits nothing, whatever the state and whatever is pending.
pub proof fn law_cancellation_ends_stream(state: AdapterState, hub: HubView, cursor: nat)
    ensures
        event_at(hub, cursor, true) == EventView::Cancelled,
        next_state(state, EventView::Cancelled) == AdapterState::Stopped,
        action_on(state, EventView::Cancelled) == ActionView::Finish,
{
}

/// A stopped adapter cannot be resumed: on every event it stays stopped and
/// emits nothing.
pub proof fn law_stopped_is_terminal(event: EventView)
    ensures
        next_state(AdapterState::Stopped, event) == AdapterState::Stopped,
        action_on(AdapterState::Stopped, event) == ActionView::Finish,
{
}

/// A running adapter emits exactly when a message came first, and then the
/// emitted message is the received one; it stops exactly on cancellation and
/// on a closed hub.
pub proof fn law_running_adapter(event: EventView)
    ensures
        action_on(AdapterState::Running, event) is Emit <==> event
            is Received && event->Received_0 is Message,
        event is Received && event->Received_0 is Message ==> action_on(
            AdapterState::Running,
            event,
        ) == ActionView::Emit(event->Received_0->Message_0),
        next_state(AdapterState::Running, event) == AdapterState::Stopped <==> event
            is Cancelled || (event is Received && event->Received_0 is Closed),
{
}

/// After the hub was closed every receive reports `Closed`, for every cursor
/// and whatever is published afterwards; the history never grows again, so
/// nothing more is delivered. A running adapter stops on that outcome, so a
/// stream sees it once.
pub proof fn law_closed_hub_delivers_nothing(hub: HubView, cursor: nat, later: Seq<MessageView>)
    ensures
        hub.close().publish_all(later) == hub.close(),
        hub.close().history == hub.history,
        outcome_at(hub.close().publish_all(later), cursor) == ReceivedView::Closed,
        cursor_after(hub.close().publish_all(later), cursor) == cursor,
        next_state(
            AdapterState::Running,
            event_at(hub.close().publish_all(later), cursor, false),
        ) == AdapterState::Stopped,
    decreases later.len(),
{
    if later.len() > 0 {
        law_closed_hub_delivers_nothing(hub, cursor, later.drop_last());
    }
}

} // verus!
