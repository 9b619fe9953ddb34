//! The broadcast service: the relay's commands, each stamped with the time
//! at which it was carried out.

use crate::channel::DEFAULT_CHANNEL_CAPACITY;
use crate::clock::{clock_range, now};
use crate::connection_manager::RoomConnectionManager;
use crate::ids::{RoomId, SessionHandle, UserId, NO_CONNECTION};
use crate::message::{BroadcastMessage, CreateBroadcastMessage, DraftView, Timestamp};
use crate::relay::RelayView;
use vstd::prelude::*;

verus! {

/// Carries out the relay's commands on the connection manager it owns.
///
/// Every command that sends something reads the clock once and returns the
/// time that it stamped on the message, so that the new state is known
/// exactly from the old state, the arguments and the returned time.
#[derive(Debug)]
pub struct BroadcastService {
    connection_manager: RoomConnectionManager,
}

impl View for BroadcastService {
    type V = RelayView;

    closed spec fn view(&self) -> RelayView {
        self.connection_manager@
    }
}

impl BroadcastService {
    /// The invariant of the relay.
    pub open spec fn wf(&self) -> bool {
        self@.wf()
    }

    /// A service over an empty relay.
    pub fn new() -> (service: Self)
        ensures
            service@ == RelayView::empty(),
            service.wf(),
    {
        BroadcastService { connection_manager: RoomConnectionManager::new() }
    }

    /// Registers `handle` as the session of `user`; the last registration
    /// wins, and the session it replaces is dropped without notice.
    pub fn register_session(&mut self, user: UserId, handle: SessionHandle)
        requires
            old(self).wf(),
        ensures
            final(self)@ == old(self)@.register(user, handle, DEFAULT_CHANNEL_CAPACITY as nat),
            final(self).wf(),
    {
        self.connection_manager.register_session(user, handle);
    }

    /// Removes the session of `user` if `handle` names it, and says whether
    /// it did.
    pub fn unregister_session(&mut self, user: UserId, handle: SessionHandle) -> (removed: bool)
        requires
            old(self).wf(),
        ensures
            removed == old(self)@.is_live(user, handle),
            final(self)@ == old(self)@.unregister(user, handle),
            final(self).wf(),
    {
        self.connection_manager.unregister_session(user, handle)
    }

    /// Fans the message that `draft` is at the time `at` out to its room,
    /// leaving out its sender.
    fn announce(&mut self, draft: CreateBroadcastMessage, at: Timestamp)
        requires
            old(self).wf(),
        ensures
            final(self)@ == old(self)@.fan_out(draft@.room_id, Some(draft@.sender_id), draft@.at(at)),
            final(self).wf(),
    {
        let room_id = draft.room_id;
        let sender_id = draft.sender_id;
        let message = draft.at(at);
        self.connection_manager.broadcast_to_room(room_id, sender_id, &message);
    }

    /// Sends a text message to everyone in the room but its sender.
    pub fn broadcast_text_message(&mut self, room_id: RoomId, sender_id: UserId, content: String) -> (at: Timestamp)
        requires
            old(self).wf(),
        ensures
            clock_range(at),
            final(self)@ == old(self)@.broadcast(room_id, sender_id, content@, at),
            final(self).wf(),
    {
        let at = now();
        self.announce(CreateBroadcastMessage::text(room_id, sender_id, content), at);
        at
    }

    /// Tells everyone in the room but the sender that the sender is typing.
    pub fn broadcast_typing(&mut self, room_id: RoomId, sender_id: UserId) -> (at: Timestamp)
        requires
            old(self).wf(),
        ensures
            clock_range(at),
            final(self)@ == old(self)@.typing(room_id, sender_id, at),
            final(self).wf(),
    {
        let at = now();
        self.announce(CreateBroadcastMessage::typing(room_id, sender_id), at);
        at
    }

    /// Tells everyone in the room but the sender that the sender has read
    /// the message `message_id`.
    pub fn broadcast_read_receipt(&mut self, room_id: RoomId, sender_id: UserId, message_id: String) -> (at:
        Timestamp)
        requires
            old(self).wf(),
        ensures
            clock_range(at),
            final(self)@ == old(self)@.read(room_id, sender_id, message_id@, at),
            final(self).wf(),
    {
        let at = now();
        self.announce(CreateBroadcastMessage::read(room_id, sender_id, message_id), at);
        at
    }

    /// Tells everyone in the room but `user_id` that `user_id` joined.
    pub fn broadcast_user_join(&mut self, room_id: RoomId, user_id: UserId) -> (at: Timestamp)
        requires
            old(self).wf(),
        ensures
            clock_range(at),
            final(self)@ == old(self)@.fan_out(room_id, Some(user_id), DraftView::join(room_id, user_id).at(at)),
            final(self).wf(),
    {
        let at = now();
        self.announce(CreateBroadcastMessage::join(room_id, user_id), at);
        at
    }

    /// Tells everyone in the room but `user_id` that `user_id` left.
    pub fn broadcast_user_leave(&mut self, room_id: RoomId, user_id: UserId) -> (at: Timestamp)
        requires
            old(self).wf(),
        ensures
            clock_range(at),
            final(self)@ == old(self)@.fan_out(room_id, Some(user_id), DraftView::leave(room_id, user_id).at(at)),
            final(self).wf(),
    {
        let at = now();
        self.announce(CreateBroadcastMessage::leave(room_id, user_id), at);
        at
    }

    /// Sends a system message to every member of the room. Its sender is the
    /// nil id, and nobody is left out.
    pub fn broadcast_system_message(&mut self, room_id: RoomId, content: String) -> (at: Timestamp)
        requires
            old(self).wf(),
        ensures
            clock_range(at),
            final(self)@ == old(self)@.system(room_id, content@, at),
            final(self).wf(),
    {
        let at = now();
        let message = CreateBroadcastMessage::system(room_id, content).at(at);
        self.connection_manager.broadcast_to_all(room_id, &message);
        at
    }

    /// Puts the session `handle` of `user_id` into the room, installing it
    /// as the user's session where it is not that yet, then tells the others
    /// in the room.
    pub fn add_user_to_room(&mut self, room_id: RoomId, user_id: UserId, handle: SessionHandle) -> (at: Timestamp)
        requires
            old(self).wf(),
        ensures
            clock_range(at),
            final(self)@ == old(self)@.join_room(room_id, user_id, handle, at),
            final(self).wf(),
    {
        let at = now();
        self.connection_manager.add_user_to_room(room_id, user_id, handle);
        self.announce(CreateBroadcastMessage::join(room_id, user_id), at);
        at
    }

    /// Puts `user_id` into the room from outside any connection, as a caller
    /// does that knows the user but not the connection: under the handle of
    /// the user's registered session, or under [`NO_CONNECTION`] where they
    /// have none. Then tells the others. Returns the time of the join.
    pub fn add_registered_user_to_room(&mut self, room_id: RoomId, user_id: UserId) -> (at: Timestamp)
        requires
            old(self).wf(),
        ensures
            clock_range(at),
            final(self)@ == old(self)@.join_room(
                room_id,
                user_id,
                match old(self)@.lookup(user_id) {
                    Some(handle) => handle,
                    None => NO_CONNECTION,
                },
                at,
            ),
            final(self).wf(),
    {
        let handle = match self.connection_manager.lookup_session(user_id) {
            Some(handle) => handle,
            None => NO_CONNECTION,
        };
        self.add_user_to_room(room_id, user_id, handle)
    }

    /// Carries out a leave at the time `at`.
    fn leave_at(&mut self, room_id: RoomId, user_id: UserId, at: Timestamp)
        requires
            old(self).wf(),
        ensures
            final(self)@ == old(self)@.leave_room(room_id, user_id, at),
            final(self).wf(),
    {
        if !self.connection_manager.is_user_in_room(room_id, user_id) {
            return ;
        }
        self.announce(CreateBroadcastMessage::leave(room_id, user_id), at);
        match self.connection_manager.remove_user_from_room(room_id, user_id) {
            Some(handle) => {
                let _ = self.connection_manager.unregister_session(user_id, handle);
            },
            None => {},
        }
    }

    /// Tells the others in the room that `user_id` leaves, and only then
    /// takes the membership away, and with it the registration of the
    /// session that had joined. For a user who is not in the room this does
    /// nothing, so leaving twice is the same as leaving once.
    pub fn remove_user_from_room(&mut self, room_id: RoomId, user_id: UserId) -> (at: Timestamp)
        requires
            old(self).wf(),
        ensures
            clock_range(at),
            final(self)@ == old(self)@.leave_room(room_id, user_id, at),
            final(self).wf(),
    {
        let at = now();
        self.leave_at(room_id, user_id, at);
        at
    }

    /// The connection `handle` of `user_id` to the room has ended. The user
    /// leaves the room where the membership is that of this connection;
    /// where a newer connection has taken its place, only a registration
    /// that this connection still holds is removed.
    pub fn disconnect(&mut self, room_id: RoomId, user_id: UserId, handle: SessionHandle) -> (at: Timestamp)
        requires
            old(self).wf(),
        ensures
            clock_range(at),
            final(self)@ == old(self)@.disconnect(room_id, user_id, handle, at),
            final(self).wf(),
    {
        let at = now();
        let joined_as = self.connection_manager.member_handle(room_id, user_id);
        if joined_as == Some(handle) {
            self.leave_at(room_id, user_id, at);
        } else {
            let _ = self.connection_manager.unregister_session(user_id, handle);
        }
        at
    }

    /// Sends `content` from `from_id` to `to_id` alone: to the recipient
    /// where they are registered, and in any case back to the sender as an
    /// echo. An absent recipient is no error and is not reported.
    pub fn send_direct_message(&mut self, from_id: UserId, to_id: UserId, content: String) -> (at: Timestamp)
        requires
            old(self).wf(),
        ensures
            clock_range(at),
            final(self)@ == old(self)@.direct_send(from_id, to_id, content@, at),
            final(self).wf(),
    {
        let at = now();
        let message = CreateBroadcastMessage::direct(from_id, to_id, content).at(at);
        let _ = self.connection_manager.send_to_user(to_id, &message);
        let _ = self.connection_manager.send_to_user(from_id, &message);
        at
    }

    /// Takes the oldest message that waits for the session `handle` of
    /// `user`.
    pub fn receive(&mut self, user: UserId, handle: SessionHandle) -> (message: Option<BroadcastMessage>)
        requires
            old(self).wf(),
        ensures
            final(self)@ == old(self)@.take(user, handle),
            match message {
                Some(m) => old(self)@.next_for(user, handle) == Some(m@),
                None => old(self)@.next_for(user, handle) is None,
            },
            final(self).wf(),
    {
        self.connection_manager.receive(user, handle)
    }

    /// The connection manager, to read the registry and the membership table.
    pub fn get_connection_manager(&self) -> (manager: &RoomConnectionManager)
        ensures
            manager@ == self@,
    {
        &self.connection_manager
    }
}

} // verus!
