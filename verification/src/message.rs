//! The messages that the relay fans out.

use crate::ids::{nil_id, nil_uuid, RoomId, UserId};
use vstd::prelude::*;

verus! {

/// A point in time: whole seconds since the Unix epoch and the nanoseconds
/// past that second.
#[derive(Debug, Clone, Copy, PartialEq, Eq, Structural)]
pub struct Timestamp {
    pub secs: i64,
    pub nanos: u32,
}

/// The kind of a relayed message.
#[derive(Debug, Clone, Copy, PartialEq, Eq, Structural)]
pub enum BroadcastMessageType {
    /// Text for a room.
    Text,
    Typing,
    Read,
    Join,
    Leave,
    System,
    /// Text for the user `to` alone. The recipient gets it, and the sender
    /// gets the same message back as an echo of what was sent to whom.
    Private { to: UserId },
}

/// One message as it sits in an outbound channel.
///
/// `content` is the text of a `Text`, `System` or `Private` message and the
/// id of the message that was read for `Read`. `Typing`, `Join` and `Leave`
/// carry no payload; their `content` is the fixed marker of the kind. A
/// `Private` message belongs to no room; its `room_id` is the nil id.
#[derive(Debug, PartialEq, Eq)]
pub struct BroadcastMessage {
    pub room_id: RoomId,
    pub sender_id: UserId,
    pub content: String,
    pub message_type: BroadcastMessageType,
    pub timestamp: Timestamp,
}

/// The mathematical value of a [`BroadcastMessage`].
pub struct MessageView {
    pub room_id: RoomId,
    pub sender_id: UserId,
    pub content: Seq<char>,
    pub message_type: BroadcastMessageType,
    pub timestamp: Timestamp,
}

impl View for BroadcastMessage {
    type V = MessageView;

    open spec fn view(&self) -> MessageView {
        MessageView {
            room_id: self.room_id,
            sender_id: self.sender_id,
            content: self.content@,
            message_type: self.message_type,
            timestamp: self.timestamp,
        }
    }
}

impl Clone for BroadcastMessage {
    fn clone(&self) -> (copy: Self)
        ensures
            copy@ == self@,
    {
        BroadcastMessage {
            room_id: self.room_id,
            sender_id: self.sender_id,
            content: self.content.clone(),
            message_type: self.message_type,
            timestamp: self.timestamp,
        }
    }
}

/// A message that has not been given its time yet.
#[derive(Debug, PartialEq, Eq)]
pub struct CreateBroadcastMessage {
    pub room_id: RoomId,
    pub sender_id: UserId,
    pub content: String,
    pub message_type: BroadcastMessageType,
}

/// The mathematical value of a [`CreateBroadcastMessage`].
pub struct DraftView {
    pub room_id: RoomId,
    pub sender_id: UserId,
    pub content: Seq<char>,
    pub message_type: BroadcastMessageType,
}

impl DraftView {
    /// The draft as a message sent at `timestamp`.
    pub open spec fn at(self, timestamp: Timestamp) -> MessageView {
        MessageView {
            room_id: self.room_id,
            sender_id: self.sender_id,
            content: self.content,
            message_type: self.message_type,
            timestamp,
        }
    }

    /// A text message from `sender_id` to the room.
    pub open spec fn text(room_id: RoomId, sender_id: UserId, content: Seq<char>) -> DraftView {
        DraftView { room_id, sender_id, content, message_type: BroadcastMessageType::Text }
    }

    /// A typing indicator from `sender_id`.
    pub open spec fn typing(room_id: RoomId, sender_id: UserId) -> DraftView {
        DraftView { room_id, sender_id, content: "typing"@, message_type: BroadcastMessageType::Typing }
    }

    /// A receipt: `sender_id` has read the message `message_id`.
    pub open spec fn read(room_id: RoomId, sender_id: UserId, message_id: Seq<char>) -> DraftView {
        DraftView { room_id, sender_id, content: message_id, message_type: BroadcastMessageType::Read }
    }

    /// The notice that `user_id` joined the room.
    pub open spec fn join(room_id: RoomId, user_id: UserId) -> DraftView {
        DraftView { room_id, sender_id: user_id, content: "joined"@, message_type: BroadcastMessageType::Join }
    }

    /// The notice that `user_id` left the room.
    pub open spec fn leave(room_id: RoomId, user_id: UserId) -> DraftView {
        DraftView { room_id, sender_id: user_id, content: "left"@, message_type: BroadcastMessageType::Leave }
    }

    /// A system message to the room; its sender is the nil id.
    pub open spec fn system(room_id: RoomId, content: Seq<char>) -> DraftView {
        DraftView { room_id, sender_id: nil_id(), content, message_type: BroadcastMessageType::System }
    }

    /// A direct message from `from_id` to `to_id`. It belongs to no room, so
    /// its room is the nil id, and its kind names the recipient.
    pub open spec fn direct(from_id: UserId, to_id: UserId, content: Seq<char>) -> DraftView {
        DraftView {
            room_id: nil_id(),
            sender_id: from_id,
            content,
            message_type: BroadcastMessageType::Private { to: to_id },
        }
    }
}

impl View for CreateBroadcastMessage {
    type V = DraftView;

    open spec fn view(&self) -> DraftView {
        DraftView {
            room_id: self.room_id,
            sender_id: self.sender_id,
            content: self.content@,
            message_type: self.message_type,
        }
    }
}

impl CreateBroadcastMessage {
    pub fn new(
        room_id: RoomId,
        sender_id: UserId,
        content: String,
        message_type: BroadcastMessageType,
    ) -> (draft: Self)
        ensures
            draft@ == (DraftView { room_id, sender_id, content: content@, message_type }),
    {
        CreateBroadcastMessage { room_id, sender_id, content, message_type }
    }

    pub fn text(room_id: RoomId, sender_id: UserId, content: String) -> (draft: Self)
        ensures
            draft@ == DraftView::text(room_id, sender_id, content@),
    {
        Self::new(room_id, sender_id, content, BroadcastMessageType::Text)
    }

    pub fn typing(room_id: RoomId, sender_id: UserId) -> (draft: Self)
        ensures
            draft@ == DraftView::typing(room_id, sender_id),
    {
        Self::new(room_id, sender_id, "typing".to_string(), BroadcastMessageType::Typing)
    }

    pub fn read(room_id: RoomId, sender_id: UserId, message_id: String) -> (draft: Self)
        ensures
            draft@ == DraftView::read(room_id, sender_id, message_id@),
    {
        Self::new(room_id, sender_id, message_id, BroadcastMessageType::Read)
    }

    pub fn join(room_id: RoomId, user_id: UserId) -> (draft: Self)
        ensures
            draft@ == DraftView::join(room_id, user_id),
    {
        Self::new(room_id, user_id, "joined".to_string(), BroadcastMessageType::Join)
    }

    pub fn leave(room_id: RoomId, user_id: UserId) -> (draft: Self)
        ensures
            draft@ == DraftView::leave(room_id, user_id),
    {
        Self::new(room_id, user_id, "left".to_string(), BroadcastMessageType::Leave)
    }

    pub fn system(room_id: RoomId, content: String) -> (draft: Self)
        ensures
            draft@ == DraftView::system(room_id, content@),
    {
        Self::new(room_id, nil_uuid(), content, BroadcastMessageType::System)
    }

    /// A direct message from `from_id` to `to_id` alone.
    pub fn direct(from_id: UserId, to_id: UserId, content: String) -> (draft: Self)
        ensures
            draft@ == DraftView::direct(from_id, to_id, content@),
    {
        Self::new(nil_uuid(), from_id, content, BroadcastMessageType::Private { to: to_id })
    }

    /// Turns the draft into the message sent at `timestamp`.
    pub fn at(self, timestamp: Timestamp) -> (message: BroadcastMessage)
        ensures
            message@ == self@.at(timestamp),
    {
        BroadcastMessage {
            room_id: self.room_id,
            sender_id: self.sender_id,
            content: self.content,
            message_type: self.message_type,
            timestamp,
        }
    }
}

} // verus!
