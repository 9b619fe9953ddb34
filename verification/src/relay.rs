//! The relay as a mathematical state machine.
//!
//! A state holds the session registry and the room membership table. Every
//! operation is a total function from state to state, so a run of the relay
//! is a chain of such functions and nothing ever interleaves. The executable
//! types state their effects over these functions.

use crate::channel::{ChannelView, DEFAULT_CHANNEL_CAPACITY};
use crate::ids::{RoomId, SessionHandle, UserId};
use crate::message::{DraftView, MessageView, Timestamp};
use vstd::prelude::*;

verus! {

/// A registered session: the handle of its connection and its outbound channel.
pub struct SessionView {
    pub handle: SessionHandle,
    pub channel: ChannelView,
}

/// The state of the relay.
pub struct RelayView {
    /// The session registry: the live session of each registered user.
    pub sessions: Map<UserId, SessionView>,
    /// The membership table: for each room, the handle under which each
    /// member joined.
    pub rooms: Map<RoomId, Map<UserId, SessionHandle>>,
}

impl RelayView {
    /// No sessions and no rooms.
    pub open spec fn empty() -> RelayView {
        RelayView { sessions: Map::empty(), rooms: Map::empty() }
    }

    /// Every channel is within its capacity.
    pub open spec fn channels_wf(self) -> bool {
        forall|user: UserId| #[trigger]
            self.sessions.contains_key(user) ==> self.sessions[user].channel.wf()
    }

    /// No room of the table is empty.
    pub open spec fn no_empty_room(self) -> bool {
        forall|room: RoomId| #[trigger] self.rooms.contains_key(room) ==> !self.rooms[room].is_empty()
    }

    /// The invariant of the relay.
    pub open spec fn wf(self) -> bool {
        self.channels_wf() && self.no_empty_room()
    }

    // Session registry

    /// Installs a fresh session for `user`, in place of any earlier one.
    pub open spec fn register(self, user: UserId, handle: SessionHandle, capacity: nat) -> RelayView {
        RelayView {
            sessions: self.sessions.insert(
                user,
                SessionView { handle, channel: ChannelView::empty(capacity) },
            ),
            rooms: self.rooms,
        }
    }

    /// `handle` is the registered session of `user`.
    pub open spec fn is_live(self, user: UserId, handle: SessionHandle) -> bool {
        self.sessions.contains_key(user) && self.sessions[user].handle == handle
    }

    /// Removes the session of `user` where it is the one that `handle` names;
    /// an unregister that comes from an older connection changes nothing.
    pub open spec fn unregister(self, user: UserId, handle: SessionHandle) -> RelayView {
        if self.is_live(user, handle) {
            RelayView { sessions: self.sessions.remove(user), rooms: self.rooms }
        } else {
            self
        }
    }

    /// The handle of the registered session of `user`.
    pub open spec fn lookup(self, user: UserId) -> Option<SessionHandle> {
        if self.sessions.contains_key(user) {
            Some(self.sessions[user].handle)
        } else {
            None
        }
    }

    // Membership table

    /// The members of `room`; empty for a room that the table does not hold.
    pub open spec fn members(self, room: RoomId) -> Set<UserId> {
        if self.rooms.contains_key(room) {
            self.rooms[room].dom()
        } else {
            Set::empty()
        }
    }

    pub open spec fn is_member(self, room: RoomId, user: UserId) -> bool {
        self.rooms.contains_key(room) && self.rooms[room].contains_key(user)
    }

    /// The members of `room` with their handles.
    pub open spec fn roster(self, room: RoomId) -> Map<UserId, SessionHandle> {
        if self.rooms.contains_key(room) {
            self.rooms[room]
        } else {
            Map::empty()
        }
    }

    /// Makes `handle` the registered session of `user` where it is not that
    /// already: a session that is registered keeps its channel with what
    /// waits in it, any other gets a fresh channel of the default capacity
    /// in place of whatever session the user had.
    pub open spec fn install(self, user: UserId, handle: SessionHandle) -> RelayView {
        if self.is_live(user, handle) {
            self
        } else {
            self.register(user, handle, DEFAULT_CHANNEL_CAPACITY as nat)
        }
    }

    /// Puts the session `handle` of `user` into `room`; the room comes into
    /// being with its first member. A user is in a room at most once, so
    /// joining again only renews the handle. The session that joins is
    /// [installed](Self::install), so that whoever is put into a room can
    /// be reached there.
    pub open spec fn join(self, room: RoomId, user: UserId, handle: SessionHandle) -> RelayView {
        RelayView {
            sessions: self.install(user, handle).sessions,
            rooms: self.rooms.insert(room, self.roster(room).insert(user, handle)),
        }
    }

    /// Takes `user` out of `room`; the room goes with its last member.
    pub open spec fn leave(self, room: RoomId, user: UserId) -> RelayView {
        if self.is_member(room, user) {
            let rest = self.rooms[room].remove(user);
            RelayView {
                sessions: self.sessions,
                rooms: if rest.is_empty() {
                    self.rooms.remove(room)
                } else {
                    self.rooms.insert(room, rest)
                },
            }
        } else {
            self
        }
    }

    // Delivery

    /// `user` is reached by a fan-out to `room` that leaves out `exclude`:
    /// they are a member other than the excluded one, and the session under
    /// which they joined is their live one. A member whose connection was
    /// replaced or closed is passed over in silence.
    pub open spec fn receives(self, room: RoomId, exclude: Option<UserId>, user: UserId) -> bool {
        &&& self.is_member(room, user)
        &&& exclude != Some(user)
        &&& self.is_live(user, self.rooms[room][user])
    }

    /// Enqueues `message` once for every member of `room` that
    /// [`receives`](Self::receives) it. Nothing else changes; a room without
    /// members, or one that does not exist, leaves the state as it is.
    pub open spec fn fan_out(self, room: RoomId, exclude: Option<UserId>, message: MessageView) -> RelayView {
        RelayView {
            sessions: Map::new(
                |user: UserId| self.sessions.contains_key(user),
                |user: UserId|
                    if self.receives(room, exclude, user) {
                        SessionView {
                            handle: self.sessions[user].handle,
                            channel: self.sessions[user].channel.push(message),
                        }
                    } else {
                        self.sessions[user]
                    },
            ),
            rooms: self.rooms,
        }
    }

    /// Enqueues `message` for `user` where they are registered.
    pub open spec fn deliver(self, user: UserId, message: MessageView) -> RelayView {
        if self.sessions.contains_key(user) {
            RelayView {
                sessions: self.sessions.insert(
                    user,
                    SessionView {
                        handle: self.sessions[user].handle,
                        channel: self.sessions[user].channel.push(message),
                    },
                ),
                rooms: self.rooms,
            }
        } else {
            self
        }
    }

    /// The oldest message waiting for the session `handle` of `user`.
    pub open spec fn next_for(self, user: UserId, handle: SessionHandle) -> Option<MessageView> {
        if self.is_live(user, handle) {
            self.sessions[user].channel.front()
        } else {
            None
        }
    }

    /// The state after the session `handle` of `user` took its oldest message.
    pub open spec fn take(self, user: UserId, handle: SessionHandle) -> RelayView {
        if self.is_live(user, handle) {
            RelayView {
                sessions: self.sessions.insert(
                    user,
                    SessionView { handle, channel: self.sessions[user].channel.pop() },
                ),
                rooms: self.rooms,
            }
        } else {
            self
        }
    }

    /// Everything that waits for the session `handle` of `user`, oldest
    /// first; nothing for a session that is not the registered one.
    pub open spec fn pending(self, user: UserId, handle: SessionHandle) -> Seq<MessageView> {
        if self.is_live(user, handle) {
            self.sessions[user].channel.queue
        } else {
            Seq::empty()
        }
    }

    /// The state after the session `handle` of `user` took everything that
    /// waited for it.
    pub open spec fn drain(self, user: UserId, handle: SessionHandle) -> RelayView {
        if self.is_live(user, handle) {
            RelayView {
                sessions: self.sessions.insert(
                    user,
                    SessionView {
                        handle,
                        channel: ChannelView { capacity: self.sessions[user].channel.capacity, queue: Seq::empty() },
                    },
                ),
                rooms: self.rooms,
            }
        } else {
            self
        }
    }

    // Commands

    /// The session `handle` of `user` joins `room`, and is installed as the
    /// user's session where it is not that yet; then the others in the room
    /// are told.
    pub open spec fn join_room(self, room: RoomId, user: UserId, handle: SessionHandle, at: Timestamp) -> RelayView {
        self.join(room, user, handle).fan_out(room, Some(user), DraftView::join(room, user).at(at))
    }

    /// The others in `room` are told that `user` leaves; then the membership
    /// goes, and with it the registration of the session that had joined.
    /// Leaving a room one is not in changes nothing.
    pub open spec fn leave_room(self, room: RoomId, user: UserId, at: Timestamp) -> RelayView {
        if self.is_member(room, user) {
            self.fan_out(room, Some(user), DraftView::leave(room, user).at(at)).leave(room, user).unregister(
                user,
                self.rooms[room][user],
            )
        } else {
            self
        }
    }

    /// The connection `handle` of `user` to `room` has ended. Where the
    /// membership is that of this very connection, the user leaves the room
    /// as by [`leave_room`](Self::leave_room). Where a newer connection of
    /// the same user has taken the place in the room, the room is left
    /// alone, and only a registration that this connection still holds goes.
    pub open spec fn disconnect(self, room: RoomId, user: UserId, handle: SessionHandle, at: Timestamp) -> RelayView {
        if self.is_member(room, user) && self.rooms[room][user] == handle {
            self.leave_room(room, user, at)
        } else {
            self.unregister(user, handle)
        }
    }

    /// A text message to everyone in `room` but its sender.
    pub open spec fn broadcast(self, room: RoomId, sender: UserId, content: Seq<char>, at: Timestamp) -> RelayView {
        self.fan_out(room, Some(sender), DraftView::text(room, sender, content).at(at))
    }

    /// A typing indicator to everyone in `room` but its sender.
    pub open spec fn typing(self, room: RoomId, sender: UserId, at: Timestamp) -> RelayView {
        self.fan_out(room, Some(sender), DraftView::typing(room, sender).at(at))
    }

    /// A read receipt to everyone in `room` but its sender.
    pub open spec fn read(self, room: RoomId, sender: UserId, message_id: Seq<char>, at: Timestamp) -> RelayView {
        self.fan_out(room, Some(sender), DraftView::read(room, sender, message_id).at(at))
    }

    /// A system message to every member of `room`, nobody left out.
    pub open spec fn system(self, room: RoomId, content: Seq<char>, at: Timestamp) -> RelayView {
        self.fan_out(room, None, DraftView::system(room, content).at(at))
    }

    /// A direct message: to the recipient where they are registered, and
    /// back to the sender as an echo that says what was sent to whom.
    pub open spec fn direct_send(self, from: UserId, to: UserId, content: Seq<char>, at: Timestamp) -> RelayView {
        let message = DraftView::direct(from, to, content).at(at);
        self.deliver(to, message).deliver(from, message)
    }
}

/// A command to the relay.
pub enum CommandView {
    RegisterSession { user: UserId, handle: SessionHandle },
    JoinRoom { room: RoomId, user: UserId, handle: SessionHandle },
    LeaveRoom { room: RoomId, user: UserId },
    Broadcast { room: RoomId, sender: UserId, content: Seq<char> },
    Typing { room: RoomId, sender: UserId },
    Read { room: RoomId, sender: UserId, message_id: Seq<char> },
    System { room: RoomId, content: Seq<char> },
    DirectSend { from: UserId, to: UserId, content: Seq<char> },
}

/// A change to the membership table alone.
pub enum MembershipOp {
    Join { room: RoomId, user: UserId, handle: SessionHandle },
    Leave { room: RoomId, user: UserId },
}

impl RelayView {
    /// The state after `command` was carried out at the time `at`. A new
    /// session gets a channel of the default capacity.
    pub open spec fn step(self, command: CommandView, at: Timestamp) -> RelayView {
        match command {
            CommandView::RegisterSession { user, handle } => self.register(
                user,
                handle,
                DEFAULT_CHANNEL_CAPACITY as nat,
            ),
            CommandView::JoinRoom { room, user, handle } => self.join_room(room, user, handle, at),
            CommandView::LeaveRoom { room, user } => self.leave_room(room, user, at),
            CommandView::Broadcast { room, sender, content } => self.broadcast(room, sender, content, at),
            CommandView::Typing { room, sender } => self.typing(room, sender, at),
            CommandView::Read { room, sender, message_id } => self.read(room, sender, message_id, at),
            CommandView::System { room, content } => self.system(room, content, at),
            CommandView::DirectSend { from, to, content } => self.direct_send(from, to, content, at),
        }
    }

    /// The state after each of `commands` was carried out in turn, each at
    /// its own time.
    pub open spec fn run(self, commands: Seq<(CommandView, Timestamp)>) -> RelayView
        decreases commands.len(),
    {
        if commands.len() == 0 {
            self
        } else {
            self.run(commands.drop_last()).step(commands.last().0, commands.last().1)
        }
    }

    /// The state after one change to the membership table.
    pub open spec fn apply(self, op: MembershipOp) -> RelayView {
        match op {
            MembershipOp::Join { room, user, handle } => self.join(room, user, handle),
            MembershipOp::Leave { room, user } => self.leave(room, user),
        }
    }

    /// The state after each of `ops` in turn.
    pub open spec fn apply_all(self, ops: Seq<MembershipOp>) -> RelayView
        decreases ops.len(),
    {
        if ops.len() == 0 {
            self
        } else {
            self.apply_all(ops.drop_last()).apply(ops.last())
        }
    }
}

} // verus!
