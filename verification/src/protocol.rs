//! The frames that a connection exchanges with its client.

use crate::ids::{RoomId, UserId};
use crate::message::{BroadcastMessage, BroadcastMessageType, MessageView, Timestamp};
use vstd::prelude::*;

verus! {

/// A frame that a client sent.
#[derive(Debug, PartialEq, Eq)]
pub enum ClientMessage {
    /// Text for the room of the connection.
    Text { content: String },
    /// The client is typing.
    Typing { user_id: UserId },
    /// The client has read the message `message_id`.
    Read { message_id: String },
    /// The client asks to join the room of this name.
    Join { room_id: String, user_id: UserId },
    /// The client asks to leave the room of this name.
    Leave { room_id: String, user_id: UserId },
    /// Text for one user alone.
    Private { to: UserId, content: String },
}

/// A frame for a client: a relayed message in the form of its kind, with
/// the payload that the kind has.
#[derive(Debug, PartialEq, Eq)]
pub enum ServerMessage {
    Text { room_id: RoomId, user_id: UserId, content: String, timestamp: Timestamp },
    Typing { room_id: RoomId, user_id: UserId, timestamp: Timestamp },
    Read { room_id: RoomId, user_id: UserId, message_id: String, timestamp: Timestamp },
    Join { room_id: RoomId, user_id: UserId, timestamp: Timestamp },
    Leave { room_id: RoomId, user_id: UserId, timestamp: Timestamp },
    System { room_id: RoomId, content: String, timestamp: Timestamp },
    /// Text that `from` sent to `to` alone. The recipient gets it, and the
    /// sender gets the same frame as the echo of what was sent.
    Private { from: UserId, to: UserId, content: String, timestamp: Timestamp },
}

/// The mathematical value of a [`ServerMessage`].
pub enum FrameView {
    Text { room_id: RoomId, user_id: UserId, content: Seq<char>, timestamp: Timestamp },
    Typing { room_id: RoomId, user_id: UserId, timestamp: Timestamp },
    Read { room_id: RoomId, user_id: UserId, message_id: Seq<char>, timestamp: Timestamp },
    Join { room_id: RoomId, user_id: UserId, timestamp: Timestamp },
    Leave { room_id: RoomId, user_id: UserId, timestamp: Timestamp },
    System { room_id: RoomId, content: Seq<char>, timestamp: Timestamp },
    Private { from: UserId, to: UserId, content: Seq<char>, timestamp: Timestamp },
}

impl View for ServerMessage {
    type V = FrameView;

    open spec fn view(&self) -> FrameView {
        match *self {
            ServerMessage::Text { room_id, user_id, content, timestamp } => FrameView::Text {
                room_id,
                user_id,
                content: content@,
                timestamp,
            },
            ServerMessage::Typing { room_id, user_id, timestamp } => FrameView::Typing {
                room_id,
                user_id,
                timestamp,
            },
            ServerMessage::Read { room_id, user_id, message_id, timestamp } => FrameView::Read {
                room_id,
                user_id,
                message_id: message_id@,
                timestamp,
            },
            ServerMessage::Join { room_id, user_id, timestamp } => FrameView::Join { room_id, user_id, timestamp },
            ServerMessage::Leave { room_id, user_id, timestamp } => FrameView::Leave { room_id, user_id, timestamp },
            ServerMessage::System { room_id, content, timestamp } => FrameView::System {
                room_id,
                content: content@,
                timestamp,
            },
            ServerMessage::Private { from, to, content, timestamp } => FrameView::Private {
                from,
                to,
                content: content@,
                timestamp,
            },
        }
    }
}

/// The frame that stands for `message`: the frame of its kind, with the
/// room, the sender and the time of the message. A private message has no
/// room; its frame names the recipient instead. The markers that `Typing`,
/// `Join` and `Leave` carry in place of a payload are not part of their
/// frames.
pub open spec fn frame_of(message: MessageView) -> FrameView {
    let MessageView { room_id, sender_id, content, message_type, timestamp } = message;
    match message_type {
        BroadcastMessageType::Text => FrameView::Text { room_id, user_id: sender_id, content, timestamp },
        BroadcastMessageType::Typing => FrameView::Typing { room_id, user_id: sender_id, timestamp },
        BroadcastMessageType::Read => FrameView::Read { room_id, user_id: sender_id, message_id: content, timestamp },
        BroadcastMessageType::Join => FrameView::Join { room_id, user_id: sender_id, timestamp },
        BroadcastMessageType::Leave => FrameView::Leave { room_id, user_id: sender_id, timestamp },
        BroadcastMessageType::System => FrameView::System { room_id, content, timestamp },
        BroadcastMessageType::Private { to } => FrameView::Private { from: sender_id, to, content, timestamp },
    }
}

/// The room that a frame belongs to; a private frame belongs to none.
pub open spec fn room_of_frame(frame: FrameView) -> Option<RoomId> {
    match frame {
        FrameView::Text { room_id, .. } => Some(room_id),
        FrameView::Typing { room_id, .. } => Some(room_id),
        FrameView::Read { room_id, .. } => Some(room_id),
        FrameView::Join { room_id, .. } => Some(room_id),
        FrameView::Leave { room_id, .. } => Some(room_id),
        FrameView::System { room_id, .. } => Some(room_id),
        FrameView::Private { .. } => None,
    }
}

impl ServerMessage {
    /// The room that the frame belongs to, or `None` for a private frame.
    pub fn room_id(&self) -> (room: Option<RoomId>)
        ensures
            room == room_of_frame(self@),
    {
        match self {
            ServerMessage::Text { room_id, .. } => Some(*room_id),
            ServerMessage::Typing { room_id, .. } => Some(*room_id),
            ServerMessage::Read { room_id, .. } => Some(*room_id),
            ServerMessage::Join { room_id, .. } => Some(*room_id),
            ServerMessage::Leave { room_id, .. } => Some(*room_id),
            ServerMessage::System { room_id, .. } => Some(*room_id),
            ServerMessage::Private { .. } => None,
        }
    }

    /// Turns a relayed message into the frame that the client gets.
    pub fn from_broadcast(message: BroadcastMessage) -> (frame: ServerMessage)
        ensures
            frame@ == frame_of(message@),
    {
        let BroadcastMessage { room_id, sender_id, content, message_type, timestamp } = message;
        match message_type {
            BroadcastMessageType::Text => ServerMessage::Text { room_id, user_id: sender_id, content, timestamp },
            BroadcastMessageType::Typing => ServerMessage::Typing { room_id, user_id: sender_id, timestamp },
            BroadcastMessageType::Read => ServerMessage::Read {
                room_id,
                user_id: sender_id,
                message_id: content,
                timestamp,
            },
            BroadcastMessageType::Join => ServerMessage::Join { room_id, user_id: sender_id, timestamp },
            BroadcastMessageType::Leave => ServerMessage::Leave { room_id, user_id: sender_id, timestamp },
            BroadcastMessageType::System => ServerMessage::System { room_id, content, timestamp },
            BroadcastMessageType::Private { to } => ServerMessage::Private {
                from: sender_id,
                to,
                content,
                timestamp,
            },
        }
    }
}

} // verus!
