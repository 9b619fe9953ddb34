//! The chat session: what one connection asks of the server.

use crate::clock::clock_range;
use crate::directory::{enrolled, names_room};
use crate::ids::{RoomId, SessionHandle, UserId};
use crate::channel::ChannelView;
use crate::message::{MessageView, Timestamp};
use crate::protocol::{frame_of, ClientMessage, ServerMessage};
use crate::relay::{CommandView, SessionView};
use crate::ws_server::{
    BroadcastMessage, ChatServer, Command, JoinRoom, PrivateMessage, ReadReceipt, RegisterSession, TypingNotice,
};
use vstd::prelude::*;

verus! {

/// One connection of a verified user to one room.
#[derive(Debug, PartialEq, Eq)]
pub struct ChatSession {
    pub user_id: UserId,
    pub room_id: RoomId,
    pub handle: SessionHandle,
}

/// What a frame from the client of `user` in `room` asks of the server.
/// The sender of what results is always the user of the connection, whatever
/// the frame says. Membership follows the connection, so a frame that asks
/// to join or to leave asks nothing.
pub open spec fn command_of(user: UserId, room: RoomId, frame: ClientMessage) -> Option<CommandView> {
    match frame {
        ClientMessage::Text { content } => Some(CommandView::Broadcast { room, sender: user, content: content@ }),
        ClientMessage::Private { to, content } => Some(
            CommandView::DirectSend { from: user, to, content: content@ },
        ),
        ClientMessage::Typing { user_id } => Some(CommandView::Typing { room, sender: user }),
        ClientMessage::Read { message_id } => Some(
            CommandView::Read { room, sender: user, message_id: message_id@ },
        ),
        ClientMessage::Join { room_id, user_id } => None,
        ClientMessage::Leave { room_id, user_id } => None,
    }
}

impl ChatSession {
    pub fn new(user_id: UserId, room_id: RoomId, handle: SessionHandle) -> (session: Self)
        ensures
            session == (ChatSession { user_id, room_id, handle }),
    {
        ChatSession { user_id, room_id, handle }
    }

    /// The session of `user_id` to the room that `room_name` names, over
    /// the connection `handle`. Every text names a room; one that the server
    /// has not heard before is added to its directory. The relay's state
    /// stays as it is until the session is [started](Self::started).
    pub fn open(server: &mut ChatServer, user_id: UserId, room_name: &str, handle: SessionHandle) -> (session:
        Self)
        requires
            old(server).wf(),
        ensures
            session.user_id == user_id,
            session.handle == handle,
            names_room(final(server).room_names(), session.room_id, room_name@),
            final(server).room_names() == enrolled(old(server).room_names(), room_name@),
            final(server)@ == old(server)@,
            final(server).wf(),
    {
        let room_id = server.room_id_of(room_name);
        ChatSession { user_id, room_id, handle }
    }

    /// The connection was opened: registers the session and joins its room.
    /// Returns the time of the join.
    pub fn started(&self, server: &mut ChatServer) -> (at: Timestamp)
        requires
            old(server).wf(),
        ensures
            clock_range(at),
            final(server).room_names() == old(server).room_names(),
            final(server)@ == old(server)@.register(
                self.user_id,
                self.handle,
                crate::channel::DEFAULT_CHANNEL_CAPACITY as nat,
            ).join_room(self.room_id, self.user_id, self.handle, at),
            final(server).wf(),
    {
        let _ = server.handle(
            Command::RegisterSession(RegisterSession { user_id: self.user_id, handle: self.handle }),
        );
        server.handle(
            Command::JoinRoom(JoinRoom { user_id: self.user_id, room_id: self.room_id, handle: self.handle }),
        )
    }

    /// The connection was closed, by the client or by the transport: the
    /// session leaves its room, which tells the others and ends its
    /// registration. Where a newer connection of the same user has taken its
    /// place in the room, the room is left alone. Ending twice is the same
    /// as ending once. Returns the time of the leave.
    pub fn stopped(&self, server: &mut ChatServer) -> (at: Timestamp)
        requires
            old(server).wf(),
        ensures
            clock_range(at),
            final(server).room_names() == old(server).room_names(),
            final(server)@ == old(server)@.disconnect(self.room_id, self.user_id, self.handle, at),
            final(server).wf(),
    {
        server.disconnect(self.room_id, self.user_id, self.handle)
    }

    /// The command that `frame` stands for, if any.
    pub fn command_for(&self, frame: ClientMessage) -> (command: Option<Command>)
        ensures
            match command {
                Some(c) => command_of(self.user_id, self.room_id, frame) == Some(c@),
                None => command_of(self.user_id, self.room_id, frame) is None,
            },
    {
        match frame {
            ClientMessage::Text { content } => Some(
                Command::Broadcast(
                    BroadcastMessage { room_id: self.room_id, message: content, sender_id: self.user_id },
                ),
            ),
            ClientMessage::Private { to, content } => Some(
                Command::DirectSend(PrivateMessage { to, from: self.user_id, content }),
            ),
            ClientMessage::Typing { user_id } => Some(
                Command::Typing(TypingNotice { room_id: self.room_id, sender_id: self.user_id }),
            ),
            ClientMessage::Read { message_id } => Some(
                Command::Read(ReadReceipt { room_id: self.room_id, sender_id: self.user_id, message_id }),
            ),
            ClientMessage::Join { room_id, user_id } => None,
            ClientMessage::Leave { room_id, user_id } => None,
        }
    }

    /// A frame came in: carries out the command that it stands for. Returns
    /// the time at which it did, or `None` where the frame asks nothing, in
    /// which case nothing changes.
    pub fn handle(&self, frame: ClientMessage, server: &mut ChatServer) -> (at: Option<Timestamp>)
        requires
            old(server).wf(),
        ensures
            match at {
                Some(at) => {
                    &&& clock_range(at)
                    &&& command_of(self.user_id, self.room_id, frame) is Some
                    &&& final(server)@ == old(server)@.step(command_of(self.user_id, self.room_id, frame)->0, at)
                },
                None => {
                    &&& command_of(self.user_id, self.room_id, frame) is None
                    &&& final(server)@ == old(server)@
                },
            },
            final(server).room_names() == old(server).room_names(),
            final(server).wf(),
    {
        match self.command_for(frame) {
            Some(command) => Some(server.handle(command)),
            None => None,
        }
    }

    /// Whether this session is still the registered one of its user. A
    /// session that is not was replaced by a newer connection or has left;
    /// nothing will reach it any more, and its connection is to be closed.
    pub fn is_live(&self, server: &ChatServer) -> (live: bool)
        ensures
            live == server@.is_live(self.user_id, self.handle),
    {
        match server.connection_manager().lookup_session(self.user_id) {
            Some(handle) => handle == self.handle,
            None => false,
        }
    }

    /// The next frame to write to the client: the oldest message that waits
    /// for this session, or `None` where nothing waits or the session was
    /// replaced by a newer one of the same user.
    pub fn next_frame(&self, server: &mut ChatServer) -> (frame: Option<ServerMessage>)
        requires
            old(server).wf(),
        ensures
            final(server)@ == old(server)@.take(self.user_id, self.handle),
            match frame {
                Some(f) => {
                    &&& old(server)@.next_for(self.user_id, self.handle) is Some
                    &&& f@ == frame_of(old(server)@.next_for(self.user_id, self.handle)->0)
                },
                None => old(server)@.next_for(self.user_id, self.handle) is None,
            },
            final(server).room_names() == old(server).room_names(),
            final(server).wf(),
    {
        match server.receive(self.user_id, self.handle) {
            Some(message) => Some(ServerMessage::from_broadcast(message)),
            None => None,
        }
    }

    /// Everything there is to write to the client: the frames of all
    /// messages that wait for this session, oldest first, which leaves its
    /// channel empty. `None` where the session is no longer the registered
    /// one of its user, in which case nothing changes and the connection is
    /// to be closed.
    pub fn pull(&self, server: &mut ChatServer) -> (frames: Option<Vec<ServerMessage>>)
        requires
            old(server).wf(),
        ensures
            final(server)@ == old(server)@.drain(self.user_id, self.handle),
            match frames {
                Some(frames) => {
                    &&& old(server)@.is_live(self.user_id, self.handle)
                    &&& frames@.len() == old(server)@.pending(self.user_id, self.handle).len()
                    &&& forall|i: int|
                        0 <= i < frames@.len() ==> (#[trigger] frames@[i])@ == frame_of(
                            old(server)@.pending(self.user_id, self.handle)[i],
                        )
                },
                None => !old(server)@.is_live(self.user_id, self.handle),
            },
            final(server).room_names() == old(server).room_names(),
            final(server).wf(),
    {
        if !self.is_live(server) {
            return None;
        }
        let ghost before = server@;
        let ghost waiting = before.pending(self.user_id, self.handle);
        let ghost capacity = before.sessions[self.user_id].channel.capacity;
        let mut frames: Vec<ServerMessage> = Vec::new();
        let mut done = false;
        assert(waiting.skip(0) =~= waiting);
        while !done
            invariant
                server.wf(),
                server.room_names() == old(server).room_names(),
                before == old(server)@,
                before.is_live(self.user_id, self.handle),
                waiting == before.sessions[self.user_id].channel.queue,
                capacity == before.sessions[self.user_id].channel.capacity,
                frames@.len() <= waiting.len(),
                forall|i: int| 0 <= i < frames@.len() ==> (#[trigger] frames@[i])@ == frame_of(waiting[i]),
                server@.rooms == before.rooms,
                server@.sessions == before.sessions.insert(
                    self.user_id,
                    SessionView {
                        handle: self.handle,
                        channel: ChannelView { capacity, queue: waiting.skip(frames@.len() as int) },
                    },
                ),
                done ==> frames@.len() == waiting.len(),
            decreases waiting.len() - frames@.len() + if done { 0int } else { 1int },
        {
            let ghost taken = frames@.len() as int;
            match server.receive(self.user_id, self.handle) {
                Some(message) => {
                    assert(waiting.skip(taken).first() == waiting[taken]);
                    assert(waiting.skip(taken).drop_first() =~= waiting.skip(taken + 1));
                    frames.push(ServerMessage::from_broadcast(message));
                    assert(server@.sessions =~= before.sessions.insert(
                        self.user_id,
                        SessionView {
                            handle: self.handle,
                            channel: ChannelView { capacity, queue: waiting.skip(taken + 1) },
                        },
                    ));
                },
                None => {
                    assert(waiting.skip(taken).len() == 0);
                    assert(server@.sessions =~= before.sessions.insert(
                        self.user_id,
                        SessionView {
                            handle: self.handle,
                            channel: ChannelView { capacity, queue: waiting.skip(taken) },
                        },
                    ));
                    done = true;
                },
            }
        }
        assert(waiting.skip(waiting.len() as int) =~= Seq::<MessageView>::empty());
        Some(frames)
    }
}

} // verus!
