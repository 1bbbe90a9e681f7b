//! An in-process fan-out messaging core.
//!
//! A [`hub::Hub`] keeps the most recent messages in a bounded buffer. Each
//! [`subscription::Subscription`] is a private cursor over the published
//! sequence, and an [`adapter::Adapter`] decides, event by event, whether a
//! listener's stream goes on, retries, waits or ends.
//!
//! The hub is a plain value: whoever shares it between threads wraps it in a
//! lock, and whoever has to wait for the next message waits outside and polls
//! again. [`laws`] and [`runs`] state what holds of every hub, subscription
//! and stream, the second through any interleaving of their steps.
pub mod message;
pub mod hub;
pub mod subscription;
pub mod adapter;
pub mod endpoints;
pub mod laws;
pub mod runs;
