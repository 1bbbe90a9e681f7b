use chat_hub::adapter::{Action, Adapter, AdapterState, Event};
use chat_hub::endpoints::{events, post, rocket};
use chat_hub::hub::{Hub, PublishOutcome, DEFAULT_CAPACITY};
use chat_hub::message::{Message, MAX_ROOM_LEN, MAX_USERNAME_LEN};
use chat_hub::subscription::Received;

fn msg(room: &str, username: &str, text: &str) -> Message {
    Message::new(room.to_string(), username.to_string(), text.to_string())
}

fn numbered(n: u64) -> Message {
    msg("lobby", "alice", &format!("message {}", n))
}

#[test]
fn one_subscriber_receives_the_exact_message() {
    let mut hub = Hub::new(16);
    let mut sub = hub.subscribe();
    let outcome = hub.publish(msg("a", "bob", "hi"));
    assert_eq!(outcome, PublishOutcome::Delivered(1));
    let got = sub.receive(&hub);
    assert_eq!(got, Received::Message(msg("a", "bob", "hi")));
    match got {
        Received::Message(m) => {
            assert_eq!(m.room, "a");
            assert_eq!(m.username, "bob");
            assert_eq!(m.message, "hi");
        }
        other => panic!("expected a message, got {:?}", other),
    }
    assert_eq!(sub.receive(&hub), Received::Empty);
}

#[test]
fn two_subscribers_receive_the_same_message_independently() {
    let mut hub = Hub::new(16);
    let mut first = hub.subscribe();
    let mut second = hub.subscribe();
    assert_eq!(hub.subscriber_count(), 2);
    assert_eq!(hub.publish(numbered(1)), PublishOutcome::Delivered(2));
    assert_eq!(hub.publish(numbered(2)), PublishOutcome::Delivered(2));
    assert_eq!(first.receive(&hub), Received::Message(numbered(1)));
    assert_eq!(first.receive(&hub), Received::Message(numbered(2)));
    assert_eq!(first.receive(&hub), Received::Empty);
    assert_eq!(second.receive(&hub), Received::Message(numbered(1)));
    assert_eq!(second.receive(&hub), Received::Message(numbered(2)));
    assert_eq!(second.receive(&hub), Received::Empty);
}

#[test]
fn stalled_subscriber_lags_by_two_then_gets_the_last_three() {
    let mut hub = Hub::new(3);
    let mut sub = hub.subscribe();
    for n in 1..=5 {
        hub.publish(numbered(n));
    }
    assert_eq!(hub.total(), 5);
    assert_eq!(hub.oldest(), 2);
    assert_eq!(sub.receive(&hub), Received::Lagged(2));
    assert_eq!(sub.receive(&hub), Received::Message(numbered(3)));
    assert_eq!(sub.receive(&hub), Received::Message(numbered(4)));
    assert_eq!(sub.receive(&hub), Received::Message(numbered(5)));
    assert_eq!(sub.receive(&hub), Received::Empty);
}

#[test]
fn lag_of_one_subscriber_leaves_the_other_alone() {
    let mut hub = Hub::new(2);
    let mut slow = hub.subscribe();
    let mut quick = hub.subscribe();
    hub.publish(numbered(1));
    assert_eq!(quick.receive(&hub), Received::Message(numbered(1)));
    hub.publish(numbered(2));
    assert_eq!(quick.receive(&hub), Received::Message(numbered(2)));
    hub.publish(numbered(3));
    assert_eq!(quick.receive(&hub), Received::Message(numbered(3)));
    assert_eq!(slow.receive(&hub), Received::Lagged(1));
    assert_eq!(slow.receive(&hub), Received::Message(numbered(2)));
    assert_eq!(slow.receive(&hub), Received::Message(numbered(3)));
    assert_eq!(quick.receive(&hub), Received::Empty);
}

#[test]
fn exactly_capacity_pending_is_no_lag() {
    let mut hub = Hub::new(3);
    let mut sub = hub.subscribe();
    for n in 1..=3 {
        hub.publish(numbered(n));
    }
    assert_eq!(hub.oldest(), 0);
    assert_eq!(sub.receive(&hub), Received::Message(numbered(1)));
    assert_eq!(sub.position(), 1);
}

#[test]
fn capacity_of_one_keeps_only_the_newest() {
    let mut hub = Hub::new(1);
    let mut sub = hub.subscribe();
    hub.publish(numbered(1));
    hub.publish(numbered(2));
    hub.publish(numbered(3));
    assert_eq!(sub.receive(&hub), Received::Lagged(2));
    assert_eq!(sub.receive(&hub), Received::Message(numbered(3)));
    assert_eq!(sub.receive(&hub), Received::Empty);
}

#[test]
fn publish_without_subscribers_reports_no_subscribers() {
    let mut hub = Hub::new(4);
    assert_eq!(hub.subscriber_count(), 0);
    assert_eq!(hub.publish(numbered(1)), PublishOutcome::NoSubscribers);
    assert_eq!(hub.publish(numbered(2)), PublishOutcome::NoSubscribers);
    assert!(!hub.is_closed());
}

#[test]
fn late_subscriber_never_sees_earlier_messages() {
    let mut hub = Hub::new(8);
    let mut early = hub.subscribe();
    hub.publish(numbered(1));
    hub.publish(numbered(2));
    let mut late = hub.subscribe();
    assert_eq!(late.position(), 2);
    assert_eq!(late.receive(&hub), Received::Empty);
    hub.publish(numbered(3));
    assert_eq!(late.receive(&hub), Received::Message(numbered(3)));
    assert_eq!(late.receive(&hub), Received::Empty);
    assert_eq!(early.receive(&hub), Received::Message(numbered(1)));
    assert_eq!(early.receive(&hub), Received::Message(numbered(2)));
    assert_eq!(early.receive(&hub), Received::Message(numbered(3)));
}

#[test]
fn closing_the_hub_ends_every_subscription() {
    let mut hub = Hub::new(8);
    let mut first = hub.subscribe();
    let mut second = hub.subscribe();
    hub.publish(numbered(1));
    hub.close();
    assert!(hub.is_closed());
    assert_eq!(hub.subscriber_count(), 0);
    assert_eq!(first.receive(&hub), Received::Closed);
    assert_eq!(second.receive(&hub), Received::Closed);
    assert_eq!(hub.publish(numbered(2)), PublishOutcome::NoSubscribers);
    assert_eq!(hub.total(), 1);
    assert_eq!(first.receive(&hub), Received::Closed);
    assert_eq!(first.position(), 0);
}

#[test]
fn subscribing_to_a_closed_hub_registers_nobody() {
    let mut hub = Hub::new(8);
    hub.close();
    let mut sub = hub.subscribe();
    assert_eq!(hub.subscriber_count(), 0);
    assert_eq!(sub.receive(&hub), Received::Closed);
}

#[test]
fn unsubscribe_lowers_the_count() {
    let mut hub = Hub::new(8);
    let first = hub.subscribe();
    let second = hub.subscribe();
    assert_eq!(hub.publish(numbered(1)), PublishOutcome::Delivered(2));
    hub.unsubscribe(first);
    assert_eq!(hub.publish(numbered(2)), PublishOutcome::Delivered(1));
    hub.unsubscribe(second);
    assert_eq!(hub.publish(numbered(3)), PublishOutcome::NoSubscribers);
    assert_eq!(hub.subscriber_count(), 0);
}

#[test]
fn fetch_gives_retained_positions_only() {
    let mut hub = Hub::new(2);
    hub.publish(numbered(1));
    hub.publish(numbered(2));
    hub.publish(numbered(3));
    assert_eq!(hub.fetch(0), None);
    assert_eq!(hub.fetch(1), Some(numbered(2)));
    assert_eq!(hub.fetch(2), Some(numbered(3)));
    assert_eq!(hub.fetch(3), None);
    assert_eq!(hub.capacity(), 2);
}

#[test]
fn server_state_starts_with_the_default_capacity() {
    let hub = rocket();
    assert_eq!(DEFAULT_CAPACITY, 1024);
    assert_eq!(hub.capacity(), 1024);
    assert_eq!(hub.total(), 0);
    assert_eq!(hub.oldest(), 0);
    assert_eq!(hub.subscriber_count(), 0);
    assert!(!hub.is_closed());
}

#[test]
fn default_hub_lags_after_1024_pending() {
    let mut hub = rocket();
    let (mut sub, _adapter) = events(&mut hub).expect("a fresh hub admits a listener");
    for n in 0..1030 {
        post(numbered(n), &mut hub);
    }
    assert_eq!(sub.receive(&hub), Received::Lagged(6));
    assert_eq!(sub.receive(&hub), Received::Message(numbered(6)));
}

#[test]
fn post_appends_and_events_starts_at_now() {
    let mut hub = rocket();
    post(msg("a", "bob", "before"), &mut hub);
    let (mut sub, mut adapter) = events(&mut hub).expect("a fresh hub admits a listener");
    assert_eq!(hub.subscriber_count(), 1);
    assert_eq!(adapter.state(), AdapterState::Running);
    assert_eq!(sub.position(), 1);
    post(msg("a", "bob", "after"), &mut hub);
    assert_eq!(hub.total(), 2);
    let out = adapter.drain(&mut sub, &hub, false);
    assert_eq!(out, vec![msg("a", "bob", "after")]);
}

#[test]
fn step_follows_the_transition_table() {
    let mut adapter = Adapter::new();
    assert_eq!(
        adapter.step(Event::Received(Received::Message(numbered(1)))),
        Action::Emit(numbered(1))
    );
    assert_eq!(adapter.state(), AdapterState::Running);
    assert_eq!(adapter.step(Event::Received(Received::Lagged(7))), Action::Retry);
    assert_eq!(adapter.state(), AdapterState::Running);
    assert_eq!(adapter.step(Event::Received(Received::Empty)), Action::Wait);
    assert_eq!(adapter.state(), AdapterState::Running);
    assert_eq!(adapter.step(Event::Received(Received::Closed)), Action::Finish);
    assert_eq!(adapter.state(), AdapterState::Stopped);
    assert!(adapter.is_stopped());
}

#[test]
fn cancellation_stops_a_running_adapter() {
    let mut adapter = Adapter::new();
    assert!(!adapter.is_stopped());
    assert_eq!(adapter.step(Event::Cancelled), Action::Finish);
    assert!(adapter.is_stopped());
}

#[test]
fn stopped_adapter_never_resumes() {
    let mut adapter = Adapter::new();
    adapter.step(Event::Cancelled);
    assert_eq!(
        adapter.step(Event::Received(Received::Message(numbered(1)))),
        Action::Finish
    );
    assert_eq!(adapter.step(Event::Received(Received::Lagged(1))), Action::Finish);
    assert_eq!(adapter.step(Event::Received(Received::Empty)), Action::Finish);
    assert_eq!(adapter.step(Event::Cancelled), Action::Finish);
    assert!(adapter.is_stopped());
}

#[test]
fn cancelled_poll_emits_nothing_even_with_pending_messages() {
    let mut hub = Hub::new(4);
    let mut sub = hub.subscribe();
    hub.publish(numbered(1));
    hub.publish(numbered(2));
    let mut adapter = Adapter::new();
    assert_eq!(adapter.poll(&mut sub, &hub, true), Action::Finish);
    assert!(adapter.is_stopped());
    assert_eq!(sub.position(), 0);
    assert_eq!(adapter.poll(&mut sub, &hub, false), Action::Finish);
    assert_eq!(sub.position(), 0);
}

#[test]
fn poll_skips_a_lag_silently() {
    let mut hub = Hub::new(2);
    let mut sub = hub.subscribe();
    for n in 1..=4 {
        hub.publish(numbered(n));
    }
    let mut adapter = Adapter::new();
    assert_eq!(adapter.poll(&mut sub, &hub, false), Action::Retry);
    assert_eq!(adapter.poll(&mut sub, &hub, false), Action::Emit(numbered(3)));
    assert_eq!(adapter.poll(&mut sub, &hub, false), Action::Emit(numbered(4)));
    assert_eq!(adapter.poll(&mut sub, &hub, false), Action::Wait);
    assert!(!adapter.is_stopped());
    hub.close();
    assert_eq!(adapter.poll(&mut sub, &hub, false), Action::Finish);
    assert!(adapter.is_stopped());
}

#[test]
fn drain_returns_pending_messages_in_order() {
    let mut hub = Hub::new(3);
    let mut sub = hub.subscribe();
    for n in 1..=5 {
        hub.publish(numbered(n));
    }
    let mut adapter = Adapter::new();
    let out = adapter.drain(&mut sub, &hub, false);
    assert_eq!(out, vec![numbered(3), numbered(4), numbered(5)]);
    assert_eq!(sub.position(), 5);
    assert!(!adapter.is_stopped());
    let again = adapter.drain(&mut sub, &hub, false);
    assert_eq!(again, Vec::<Message>::new());
    assert!(!adapter.is_stopped());
}

#[test]
fn drain_on_cancel_or_close_stops_with_nothing() {
    let mut hub = Hub::new(3);
    let mut sub = hub.subscribe();
    hub.publish(numbered(1));
    let mut cancelled = Adapter::new();
    assert_eq!(cancelled.drain(&mut sub, &hub, true), Vec::<Message>::new());
    assert!(cancelled.is_stopped());
    assert_eq!(sub.position(), 0);
    hub.close();
    let mut closed = Adapter::new();
    assert_eq!(closed.drain(&mut sub, &hub, false), Vec::<Message>::new());
    assert!(closed.is_stopped());
    assert_eq!(sub.position(), 0);
}

#[test]
fn message_bounds_count_characters() {
    assert_eq!(MAX_ROOM_LEN, 30);
    assert_eq!(MAX_USERNAME_LEN, 20);
    let room30 = "r".repeat(30);
    let room31 = "r".repeat(31);
    let name20 = "é".repeat(20);
    let name21 = "n".repeat(21);
    assert!(msg(&room30, &name20, "text").within_bounds());
    assert!(!msg(&room31, "bob", "text").within_bounds());
    assert!(!msg("a", &name21, "text").within_bounds());
    assert!(msg("", "", &"x".repeat(5000)).within_bounds());
}

#[test]
fn clone_keeps_every_field() {
    let first = msg("a", "bob", "hi");
    let copy = first.clone();
    assert_eq!(copy, first);
    assert_eq!(copy.message, "hi");
}

#[test]
fn interleaved_publishes_and_receives_keep_order() {
    let mut hub = Hub::new(2);
    hub.publish(numbered(0));
    let mut sub = hub.subscribe();
    hub.publish(numbered(1));
    assert_eq!(sub.receive(&hub), Received::Message(numbered(1)));
    hub.publish(numbered(2));
    hub.publish(numbered(3));
    hub.publish(numbered(4));
    hub.publish(numbered(5));
    assert_eq!(sub.receive(&hub), Received::Lagged(2));
    assert_eq!(sub.receive(&hub), Received::Message(numbered(4)));
    hub.publish(numbered(6));
    assert_eq!(sub.receive(&hub), Received::Message(numbered(5)));
    assert_eq!(sub.receive(&hub), Received::Message(numbered(6)));
    assert_eq!(sub.receive(&hub), Received::Empty);
    assert_eq!(sub.position(), 7);
    assert_eq!(hub.total(), 7);
}

#[test]
fn cancellation_between_messages_ends_the_stream_for_good() {
    let mut hub = Hub::new(8);
    let (mut sub, mut adapter) = events(&mut hub).expect("a fresh hub admits a listener");
    hub.publish(numbered(1));
    hub.publish(numbered(2));
    assert_eq!(adapter.poll(&mut sub, &hub, false), Action::Emit(numbered(1)));
    assert_eq!(adapter.poll(&mut sub, &hub, true), Action::Finish);
    hub.publish(numbered(3));
    assert_eq!(adapter.poll(&mut sub, &hub, false), Action::Finish);
    assert_eq!(adapter.drain(&mut sub, &hub, false), Vec::<Message>::new());
    assert_eq!(sub.position(), 1);
    assert_eq!(adapter.state(), AdapterState::Stopped);
}

#[test]
fn closed_is_reported_to_a_stream_once() {
    let mut hub = Hub::new(8);
    let (mut sub, mut adapter) = events(&mut hub).expect("a fresh hub admits a listener");
    hub.publish(numbered(1));
    hub.close();
    assert_eq!(adapter.poll(&mut sub, &hub, false), Action::Finish);
    assert!(adapter.is_stopped());
    assert_eq!(adapter.poll(&mut sub, &hub, false), Action::Finish);
    assert_eq!(sub.position(), 0);
}

#[test]
fn a_cursor_beyond_the_history_waits() {
    let mut long = Hub::new(4);
    long.publish(numbered(1));
    long.publish(numbered(2));
    let mut sub = long.subscribe();
    let short = Hub::new(4);
    assert_eq!(sub.receive(&short), Received::Empty);
    assert_eq!(sub.position(), 2);
}

#[test]
fn endpoints_work_on_a_closed_hub_without_effect() {
    let mut hub = rocket();
    hub.close();
    post(numbered(1), &mut hub);
    assert_eq!(hub.total(), 0);
    let (mut sub, mut adapter) = events(&mut hub).expect("a closed hub still opens a stream");
    assert_eq!(hub.subscriber_count(), 0);
    assert_eq!(adapter.poll(&mut sub, &hub, false), Action::Finish);
    assert!(adapter.is_stopped());
}
