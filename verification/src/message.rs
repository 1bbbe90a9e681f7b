//! The unit of data that is published and delivered.
use vstd::prelude::*;

verus! {

/// Longest room name, in characters, that the transport layer lets through.
pub const MAX_ROOM_LEN: usize = 30;

/// Longest user name, in characters, that the transport layer lets through.
pub const MAX_USERNAME_LEN: usize = 20;

/// What a [`Message`] is, as plain sequences of characters.
pub struct MessageView {
    pub room: Seq<char>,
    pub username: Seq<char>,
    pub message: Seq<char>,
}

impl MessageView {
    /// The bounds that the transport layer enforces before it publishes.
    pub open spec fn within_bounds(self) -> bool {
        &&& self.room.len() <= MAX_ROOM_LEN
        &&& self.username.len() <= MAX_USERNAME_LEN
    }
}

/// A chat message: a room, the author's name and the text.
///
/// The room is payload only: it has no effect on who receives the message.
#[derive(Debug, PartialEq, Eq)]
pub struct Message {
    pub room: String,
    pub username: String,
    pub message: String,
}

impl View for Message {
    type V = MessageView;

    open spec fn view(&self) -> MessageView {
        MessageView { room: self.room@, username: self.username@, message: self.message@ }
    }
}

impl Clone for Message {
    fn clone(&self) -> (copy: Self)
        ensures
            copy == *self,
    {
        Message {
            room: self.room.clone(),
            username: self.username.clone(),
            message: self.message.clone(),
        }
    }
}

/// The messages of `msgs` as mathematical values, in the same order.
pub open spec fn views(msgs: Seq<Message>) -> Seq<MessageView> {
    Seq::new(msgs.len(), |i: int| msgs[i]@)
}

impl Message {
    /// Builds a message from its three parts, unchanged.
    pub fn new(room: String, username: String, message: String) -> (msg: Message)
        ensures
            msg.room == room,
            msg.username == username,
            msg.message == message,
    {
        Message { room, username, message }
    }

    /// Whether room and user name are within the bounds that a transport layer
    /// has to enforce before it publishes. The hub itself takes any message.
    pub fn within_bounds(&self) -> (ok: bool)
        ensures
            ok == self@.within_bounds(),
    {
        self.room.as_str().unicode_len() <= MAX_ROOM_LEN
            && self.username.as_str().unicode_len() <= MAX_USERNAME_LEN
    }
}

} // verus!
