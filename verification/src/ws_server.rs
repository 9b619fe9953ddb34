//! The chat server: the one place where commands meet the relay's state.

use crate::broadcast_service::BroadcastService;
use crate::clock::{clock_range, now};
use crate::connection_manager::RoomConnectionManager;
use crate::directory::{enrolled, name_at, names_room, RoomDirectory};
use crate::ids::{RoomId, SessionHandle, UserId, NO_CONNECTION};
use crate::message::Timestamp;
use crate::relay::{CommandView, RelayView};
use vstd::prelude::*;

verus! {

/// Registers the connection `handle` as the session of `user_id`.
#[derive(Debug, PartialEq, Eq)]
pub struct RegisterSession {
    pub user_id: UserId,
    pub handle: SessionHandle,
}

/// Puts the session `handle` of `user_id` into `room_id`. A session that is
/// not registered yet is registered on the way.
#[derive(Debug, PartialEq, Eq)]
pub struct JoinRoom {
    pub user_id: UserId,
    pub room_id: RoomId,
    pub handle: SessionHandle,
}

/// Takes `user_id` out of `room_id`.
#[derive(Debug, PartialEq, Eq)]
pub struct LeaveRoom {
    pub room_id: RoomId,
    pub user_id: UserId,
}

/// Text from `sender_id` for everyone else in `room_id`.
#[derive(Debug, PartialEq, Eq)]
pub struct BroadcastMessage {
    pub room_id: RoomId,
    pub message: String,
    pub sender_id: UserId,
}

/// `sender_id` is typing in `room_id`.
#[derive(Debug, PartialEq, Eq)]
pub struct TypingNotice {
    pub room_id: RoomId,
    pub sender_id: UserId,
}

/// `sender_id` has read the message `message_id` in `room_id`.
#[derive(Debug, PartialEq, Eq)]
pub struct ReadReceipt {
    pub room_id: RoomId,
    pub sender_id: UserId,
    pub message_id: String,
}

/// Text from the system for every member of `room_id`.
#[derive(Debug, PartialEq, Eq)]
pub struct SystemMessage {
    pub room_id: RoomId,
    pub content: String,
}

/// Text from `from` for `to` alone.
#[derive(Debug, PartialEq, Eq)]
pub struct PrivateMessage {
    pub to: UserId,
    pub from: UserId,
    pub content: String,
}

/// Everything that the server can be asked to do.
#[derive(Debug, PartialEq, Eq)]
pub enum Command {
    RegisterSession(RegisterSession),
    JoinRoom(JoinRoom),
    LeaveRoom(LeaveRoom),
    Broadcast(BroadcastMessage),
    Typing(TypingNotice),
    Read(ReadReceipt),
    System(SystemMessage),
    DirectSend(PrivateMessage),
}

impl View for Command {
    type V = CommandView;

    open spec fn view(&self) -> CommandView {
        match *self {
            Command::RegisterSession(c) => CommandView::RegisterSession { user: c.user_id, handle: c.handle },
            Command::JoinRoom(c) => CommandView::JoinRoom { room: c.room_id, user: c.user_id, handle: c.handle },
            Command::LeaveRoom(c) => CommandView::LeaveRoom { room: c.room_id, user: c.user_id },
            Command::Broadcast(c) => CommandView::Broadcast {
                room: c.room_id,
                sender: c.sender_id,
                content: c.message@,
            },
            Command::Typing(c) => CommandView::Typing { room: c.room_id, sender: c.sender_id },
            Command::Read(c) => CommandView::Read {
                room: c.room_id,
                sender: c.sender_id,
                message_id: c.message_id@,
            },
            Command::System(c) => CommandView::System { room: c.room_id, content: c.content@ },
            Command::DirectSend(c) => CommandView::DirectSend { from: c.from, to: c.to, content: c.content@ },
        }
    }
}

/// The coordinator. It owns the session registry, the membership table and
/// the room directory, and carries out one command at a time, each against
/// the state that all earlier commands left behind.
#[derive(Debug)]
pub struct ChatServer {
    service: BroadcastService,
    rooms: RoomDirectory,
}

impl View for ChatServer {
    type V = RelayView;

    closed spec fn view(&self) -> RelayView {
        self.service@
    }
}

impl ChatServer {
    /// The names of the rooms that the directory holds, in the order in
    /// which they were first asked for. The room at index `i` has the id
    /// `i + 1`.
    pub closed spec fn room_names(&self) -> Seq<Seq<char>> {
        self.rooms@
    }

    /// The invariant of the relay, and no room name twice in the directory.
    pub open spec fn wf(&self) -> bool {
        self@.wf() && self.room_names().no_duplicates()
    }

    /// A server without sessions, without rooms and without room names.
    pub fn new() -> (server: Self)
        ensures
            server@ == RelayView::empty(),
            server.room_names() == Seq::<Seq<char>>::empty(),
            server.wf(),
    {
        ChatServer { service: BroadcastService::new(), rooms: RoomDirectory::new() }
    }

    /// The id of the room `name`. Every text names a room: a name that is
    /// asked for the first time is added to the directory, and from then on
    /// the same name gives the same id and no other name gives it. The
    /// relay's state stays as it is.
    pub fn room_id_of(&mut self, name: &str) -> (id: RoomId)
        requires
            old(self).wf(),
        ensures
            final(self).room_names() == enrolled(old(self).room_names(), name@),
            names_room(final(self).room_names(), id, name@),
            final(self)@ == old(self)@,
            final(self).wf(),
    {
        self.rooms.room_id_of(name)
    }

    /// The id of the room `name`, where the name was asked for before.
    pub fn find_room(&self, name: &str) -> (id: Option<RoomId>)
        ensures
            match id {
                Some(id) => names_room(self.room_names(), id, name@),
                None => !self.room_names().contains(name@),
            },
    {
        self.rooms.find(name)
    }

    /// The name of the room `id`, or `None` where the directory gave that id
    /// to no room.
    pub fn room_name(&self, id: RoomId) -> (name: Option<String>)
        ensures
            match name {
                Some(n) => name_at(self.room_names(), id) == Some(n@),
                None => name_at(self.room_names(), id) is None,
            },
    {
        self.rooms.name_of(id)
    }

    /// Carries out `command` and returns the time at which it did: the time
    /// that stands on every message that the command sent.
    pub fn handle(&mut self, command: Command) -> (at: Timestamp)
        requires
            old(self).wf(),
        ensures
            clock_range(at),
            final(self)@ == old(self)@.step(command@, at),
            final(self).room_names() == old(self).room_names(),
            final(self).wf(),
    {
        match command {
            Command::RegisterSession(c) => {
                self.service.register_session(c.user_id, c.handle);
                now()
            },
            Command::JoinRoom(c) => self.service.add_user_to_room(c.room_id, c.user_id, c.handle),
            Command::LeaveRoom(c) => self.service.remove_user_from_room(c.room_id, c.user_id),
            Command::Broadcast(c) => self.service.broadcast_text_message(c.room_id, c.sender_id, c.message),
            Command::Typing(c) => self.service.broadcast_typing(c.room_id, c.sender_id),
            Command::Read(c) => self.service.broadcast_read_receipt(c.room_id, c.sender_id, c.message_id),
            Command::System(c) => self.service.broadcast_system_message(c.room_id, c.content),
            Command::DirectSend(c) => self.service.send_direct_message(c.from, c.to, c.content),
        }
    }

    /// Puts `user_id` into `room_id` from outside any connection: under the
    /// handle of the user's registered session, or under [`NO_CONNECTION`]
    /// where they have none. Returns the time of the join.
    pub fn join_registered(&mut self, room_id: RoomId, user_id: UserId) -> (at: Timestamp)
        requires
            old(self).wf(),
        ensures
            clock_range(at),
            final(self)@ == old(self)@.join_room(
                room_id,
                user_id,
                match old(self)@.lookup(user_id) {
                    Some(handle) => handle,
                    None => NO_CONNECTION,
                },
                at,
            ),
            final(self).room_names() == old(self).room_names(),
            final(self).wf(),
    {
        self.service.add_registered_user_to_room(room_id, user_id)
    }

    /// The connection `handle` of `user_id` to `room_id` has ended: the
    /// user leaves the room where the membership is that of this
    /// connection, and a connection that was replaced by a newer one takes
    /// nothing from the newer one. Returns the time at which this was done.
    pub fn disconnect(&mut self, room_id: RoomId, user_id: UserId, handle: SessionHandle) -> (at: Timestamp)
        requires
            old(self).wf(),
        ensures
            clock_range(at),
            final(self)@ == old(self)@.disconnect(room_id, user_id, handle, at),
            final(self).room_names() == old(self).room_names(),
            final(self).wf(),
    {
        self.service.disconnect(room_id, user_id, handle)
    }

    /// Removes the session of `user` if `handle` names it, and says whether
    /// it did. For a connection that closes without having joined a room.
    pub fn unregister(&mut self, user: UserId, handle: SessionHandle) -> (removed: bool)
        requires
            old(self).wf(),
        ensures
            removed == old(self)@.is_live(user, handle),
            final(self)@ == old(self)@.unregister(user, handle),
            final(self).room_names() == old(self).room_names(),
            final(self).wf(),
    {
        self.service.unregister_session(user, handle)
    }

    /// Takes the oldest message that waits for the session `handle` of
    /// `user`.
    pub fn receive(&mut self, user: UserId, handle: SessionHandle) -> (message: Option<
        crate::message::BroadcastMessage,
    >)
        requires
            old(self).wf(),
        ensures
            final(self)@ == old(self)@.take(user, handle),
            match message {
                Some(m) => old(self)@.next_for(user, handle) == Some(m@),
                None => old(self)@.next_for(user, handle) is None,
            },
            final(self).room_names() == old(self).room_names(),
            final(self).wf(),
    {
        self.service.receive(user, handle)
    }

    /// The connection manager, to read the registry and the membership table.
    pub fn connection_manager(&self) -> (manager: &RoomConnectionManager)
        ensures
            manager@ == self@,
    {
        self.service.get_connection_manager()
    }
}

} // verus!
