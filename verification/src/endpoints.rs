//! The three entry points that a transport layer binds to its routes.
use vstd::prelude::*;
use crate::adapter::{Adapter, AdapterState};
use crate::hub::{Hub, HubView, DEFAULT_CAPACITY};
use crate::message::Message;
use crate::subscription::Subscription;

verus! {

/// Builds the state of a server: the one hub of the process, open, with the
/// default capacity, no history and no subscriptions.
pub fn rocket() -> (queue: Hub)
    ensures
        queue@ == HubView::fresh(DEFAULT_CAPACITY as nat),
{
    Hub::new(DEFAULT_CAPACITY)
}

/// The publish endpoint: hands an already validated message to the hub.
///
/// The outcome is dropped on purpose: that nobody listens is no error. A hub
/// whose position counter is exhausted is left as it is.
pub fn post(form: Message, queue: &mut Hub)
    ensures
        final(queue)@ == if old(queue)@.can_accept() {
            old(queue)@.publish(form@)
        } else {
            old(queue)@
        },
{
    if queue.is_closed() || queue.total() < u64::MAX {
        let _outcome = queue.publish(form);
    }
}

/// The listen endpoint: opens a subscription that starts at "now", together
/// with a running adapter for it.
///
/// There is no stream only where the hub's subscription counter is exhausted;
/// the hub is then left as it is.
pub fn events(queue: &mut Hub) -> (stream: Option<(Subscription, Adapter)>)
    ensures
        stream is Some <==> old(queue)@.can_admit(),
        stream is Some ==> {
            &&& final(queue)@ == old(queue)@.subscribe()
            &&& stream->Some_0.0@ == old(queue)@.total()
            &&& stream->Some_0.1@ == AdapterState::Running
        },
        stream is None ==> final(queue)@ == old(queue)@,
{
    if queue.is_closed() || queue.subscriber_count() < u64::MAX {
        let sub = queue.subscribe();
        Some((sub, Adapter::new()))
    } else {
        None
    }
}

} // verus!
