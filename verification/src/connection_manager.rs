//! The connection manager: the session registry and the room membership
//! table under one owner, and the fan-out of a message to a room.

use crate::channel::DEFAULT_CHANNEL_CAPACITY;
use crate::ids::{RoomId, SessionHandle, UserId};
use crate::message::BroadcastMessage;
use crate::registry::{deliver_to_session, SessionRegistry};
use crate::relay::{RelayView, SessionView};
use std::collections::HashMap;
use vstd::prelude::*;
use vstd::std_specs::hash::spec_keys_iter;
use vstd::std_specs::iter::IteratorSpec;

verus! {

/// The entries of `roster` as a list: each member once, with its handle.
fn entries(roster: &HashMap<UserId, SessionHandle>) -> (list: Vec<(UserId, SessionHandle)>)
    ensures
        list@.len() == roster@.dom().len(),
        forall|i: int|
            0 <= i < list@.len() ==> roster@.contains_key(#[trigger] list@[i].0) && roster@[list@[i].0]
                == list@[i].1,
        forall|i: int, j: int| 0 <= i < j < list@.len() ==> list@[i].0 != list@[j].0,
        forall|user: UserId|
            roster@.contains_key(user) ==> exists|i: int| 0 <= i < list@.len() && #[trigger] list@[i].0 == user,
{
    let mut list: Vec<(UserId, SessionHandle)> = Vec::new();
    let ghost keys = spec_keys_iter(roster).remaining();
    for user in it: roster.keys()
        invariant
            it.seq() == keys,
            keys.unref().to_set() == roster@.dom(),
            keys.no_duplicates(),
            keys.len() == roster@.dom().len(),
            list@.len() == it.index(),
            forall|i: int| 0 <= i < list@.len() ==> #[trigger] list@[i].0 == *keys[i],
            forall|i: int|
                0 <= i < list@.len() ==> roster@.contains_key(#[trigger] list@[i].0) && roster@[list@[i].0]
                    == list@[i].1,
    {
        assert(keys.unref()[it.index()] == *user);
        assert(keys.unref().to_set().contains(*user));
        match roster.get(user) {
            Some(handle) => list.push((*user, *handle)),
            None => {},
        }
    }
    proof {
        assert forall|i: int, j: int| 0 <= i < j < list@.len() implies list@[i].0 != list@[j].0 by {
            assert(keys[i] != keys[j]);
        }
        assert forall|user: UserId| roster@.contains_key(user) implies exists|i: int|
            0 <= i < list@.len() && #[trigger] list@[i].0 == user by {
            assert(keys.unref().to_set().contains(user));
            let i = choose|i: int| 0 <= i < keys.unref().len() && keys.unref()[i] == user;
            assert(list@[i].0 == user);
        }
    }
    list
}

/// `user` is among the first `n` entries of `list`.
spec fn listed(list: Seq<(UserId, SessionHandle)>, n: int, user: UserId) -> bool {
    exists|j: int| 0 <= j < n && (#[trigger] list[j]).0 == user
}

/// Owns the session registry and the room membership table, and carries out
/// every change to either of them. One value of this type is the relay's
/// whole state; whoever holds it mutably is the only writer.
#[derive(Debug)]
pub struct RoomConnectionManager {
    registry: SessionRegistry,
    rooms: HashMap<RoomId, HashMap<UserId, SessionHandle>>,
}

impl View for RoomConnectionManager {
    type V = RelayView;

    closed spec fn view(&self) -> RelayView {
        RelayView {
            sessions: self.registry@,
            rooms: Map::new(|room: RoomId| self.rooms@.contains_key(room), |room: RoomId| self.rooms@[room]@),
        }
    }
}

impl RoomConnectionManager {
    /// The invariant of the relay: every channel is within its capacity,
    /// and the membership table holds no empty room.
    pub open spec fn wf(&self) -> bool {
        self@.wf()
    }

    /// The registry's own invariant is the channel part of the relay's.
    proof fn lemma_registry_wf(&self)
        ensures
            self@.sessions == self.registry@,
            self@.channels_wf() == self.registry.wf(),
    {
        assert(self@.sessions == self.registry@);
    }

    /// A manager without sessions and without rooms.
    pub fn new() -> (manager: Self)
        ensures
            manager@ == RelayView::empty(),
            manager.wf(),
    {
        let manager = RoomConnectionManager { registry: SessionRegistry::new(), rooms: HashMap::new() };
        proof {
            manager.lemma_registry_wf();
        }
        assert(manager@.rooms =~= Map::empty());
        manager
    }

    /// Registers `handle` as the session of `user`, with an empty channel of
    /// the default capacity; the last registration wins.
    pub fn register_session(&mut self, user: UserId, handle: SessionHandle)
        requires
            old(self).wf(),
        ensures
            final(self)@ == old(self)@.register(user, handle, DEFAULT_CHANNEL_CAPACITY as nat),
            final(self).wf(),
    {
        proof {
            self.lemma_registry_wf();
        }
        self.registry.register(user, handle);
        proof {
            self.lemma_registry_wf();
            assert(self@.rooms == old(self)@.rooms);
        }
    }

    /// As [`register_session`](Self::register_session), with a channel of
    /// the given capacity.
    pub fn register_session_with_capacity(&mut self, user: UserId, handle: SessionHandle, capacity: usize)
        requires
            old(self).wf(),
        ensures
            final(self)@ == old(self)@.register(user, handle, capacity as nat),
            final(self).wf(),
    {
        proof {
            self.lemma_registry_wf();
        }
        self.registry.register_with_capacity(user, handle, capacity);
        proof {
            self.lemma_registry_wf();
            assert(self@.rooms == old(self)@.rooms);
        }
    }

    /// Removes the session of `user` if `handle` names it, and says whether
    /// it did.
    pub fn unregister_session(&mut self, user: UserId, handle: SessionHandle) -> (removed: bool)
        requires
            old(self).wf(),
        ensures
            removed == old(self)@.is_live(user, handle),
            final(self)@ == old(self)@.unregister(user, handle),
            final(self).wf(),
    {
        proof {
            self.lemma_registry_wf();
        }
        let removed = self.registry.unregister(user, handle);
        proof {
            self.lemma_registry_wf();
        }
        removed
    }

    /// The handle of the session registered for `user`.
    pub fn lookup_session(&self, user: UserId) -> (handle: Option<SessionHandle>)
        ensures
            handle == self@.lookup(user),
    {
        self.registry.lookup(user)
    }

    /// Puts the session `handle` of `user` into `room`, creating the room
    /// with its first member. A user who is in the room already stays in it
    /// once, under the new handle. Where `handle` is not the registered
    /// session of the user yet, it becomes that now, with an empty channel
    /// of the default capacity, so that the new member can be reached.
    pub fn add_user_to_room(&mut self, room_id: RoomId, user_id: UserId, handle: SessionHandle)
        requires
            old(self).wf(),
        ensures
            final(self)@ == old(self)@.join(room_id, user_id, handle),
            final(self).wf(),
    {
        proof {
            self.lemma_registry_wf();
        }
        if !self.registry.is_live(user_id, handle) {
            self.registry.register(user_id, handle);
        }
        proof {
            self.lemma_registry_wf();
            assert(self@.sessions == old(self)@.install(user_id, handle).sessions);
        }
        let mut members = match self.rooms.remove(&room_id) {
            Some(members) => members,
            None => HashMap::new(),
        };
        assert(members@ =~= old(self)@.roster(room_id));
        members.insert(user_id, handle);
        assert(members@.contains_key(user_id));
        self.rooms.insert(room_id, members);
        assert(self@.rooms =~= old(self)@.join(room_id, user_id, handle).rooms);
        proof {
            self.lemma_registry_wf();
        }
    }

    /// Takes `user` out of `room` and deletes the room where nobody is left
    /// in it. Returns the handle under which the user had joined, or `None`
    /// where they were not in the room, in which case nothing changes.
    pub fn remove_user_from_room(&mut self, room_id: RoomId, user_id: UserId) -> (handle: Option<SessionHandle>)
        requires
            old(self).wf(),
        ensures
            handle == if old(self)@.is_member(room_id, user_id) {
                Some(old(self)@.rooms[room_id][user_id])
            } else {
                None
            },
            final(self)@ == old(self)@.leave(room_id, user_id),
            final(self).wf(),
    {
        proof {
            self.lemma_registry_wf();
        }
        match self.rooms.remove(&room_id) {
            Some(mut members) => {
                let ghost before = members@;
                assert(old(self)@.rooms.contains_key(room_id));
                assert(before == old(self)@.rooms[room_id]);
                assert(!before.is_empty());
                let handle = members.remove(&user_id);
                if members.is_empty() {
                    assert(before.contains_key(user_id)) by {
                        if !before.contains_key(user_id) {
                            assert(members@ =~= before);
                        }
                    }
                } else {
                    self.rooms.insert(room_id, members);
                    proof {
                        if !before.contains_key(user_id) {
                            assert(members@ =~= before);
                        }
                    }
                }
                assert(self@.rooms =~= old(self)@.leave(room_id, user_id).rooms);
                proof {
                    self.lemma_registry_wf();
                }
                handle
            },
            None => {
                assert(self@.rooms =~= old(self)@.rooms);
                proof {
                    self.lemma_registry_wf();
                }
                None
            },
        }
    }

    /// The members of `room`, each once, in no particular order; empty for a
    /// room that does not exist.
    pub fn get_room_users(&self, room_id: RoomId) -> (users: Vec<UserId>)
        ensures
            users@.to_set() == self@.members(room_id),
            users@.no_duplicates(),
    {
        let mut users: Vec<UserId> = Vec::new();
        match self.rooms.get(&room_id) {
            Some(members) => {
                let list = entries(members);
                let mut i: usize = 0;
                while i < list.len()
                    invariant
                        i <= list@.len(),
                        users@.len() == i,
                        forall|j: int| 0 <= j < i ==> #[trigger] users@[j] == list@[j].0,
                    decreases list@.len() - i,
                {
                    users.push(list[i].0);
                    i = i + 1;
                }
                assert(users@.to_set() =~= self@.members(room_id)) by {
                    assert forall|user: UserId| users@.to_set().contains(user) == self@.members(
                        room_id,
                    ).contains(user) by {
                        if users@.to_set().contains(user) {
                            let j = choose|j: int| 0 <= j < users@.len() && users@[j] == user;
                            assert(list@[j].0 == user);
                        }
                        if self@.members(room_id).contains(user) {
                            let j = choose|j: int| 0 <= j < list@.len() && #[trigger] list@[j].0 == user;
                            assert(users@[j] == user);
                        }
                    }
                }
            },
            None => {
                assert(users@.to_set() =~= self@.members(room_id));
            },
        }
        users
    }

    /// The sessions of `room`: each member once, with the handle under which
    /// it joined, in no particular order; empty for a room that does not
    /// exist.
    pub fn get_room_sessions(&self, room_id: RoomId) -> (sessions: Vec<(UserId, SessionHandle)>)
        ensures
            forall|i: int|
                0 <= i < sessions@.len() ==> self@.is_member(room_id, #[trigger] sessions@[i].0)
                    && self@.rooms[room_id][sessions@[i].0] == sessions@[i].1,
            forall|i: int, j: int| 0 <= i < j < sessions@.len() ==> sessions@[i].0 != sessions@[j].0,
            forall|user: UserId|
                self@.is_member(room_id, user) ==> exists|i: int|
                    0 <= i < sessions@.len() && #[trigger] sessions@[i].0 == user,
    {
        match self.rooms.get(&room_id) {
            Some(members) => entries(members),
            None => Vec::new(),
        }
    }

    /// Whether `user` is in `room`.
    pub fn is_user_in_room(&self, room_id: RoomId, user_id: UserId) -> (present: bool)
        ensures
            present == self@.is_member(room_id, user_id),
    {
        match self.rooms.get(&room_id) {
            Some(members) => members.contains_key(&user_id),
            None => false,
        }
    }

    /// The handle under which `user` is in `room`, or `None` where they are
    /// not in it.
    pub fn member_handle(&self, room_id: RoomId, user_id: UserId) -> (handle: Option<SessionHandle>)
        ensures
            handle == if self@.is_member(room_id, user_id) {
                Some(self@.rooms[room_id][user_id])
            } else {
                None
            },
    {
        match self.rooms.get(&room_id) {
            Some(members) => match members.get(&user_id) {
                Some(handle) => Some(*handle),
                None => None,
            },
            None => None,
        }
    }

    /// Enqueues `message` for every member of `room` but `exclude`, once
    /// each. A member whose session is no longer the registered one is
    /// skipped.
    fn fan_out(&mut self, room_id: RoomId, exclude: Option<UserId>, message: &BroadcastMessage)
        requires
            old(self).wf(),
        ensures
            final(self)@ == old(self)@.fan_out(room_id, exclude, message@),
            final(self).wf(),
    {
        let ghost before = self@;
        proof {
            self.lemma_registry_wf();
        }
        let list = match self.rooms.get(&room_id) {
            Some(members) => entries(members),
            None => Vec::new(),
        };
        let mut i: usize = 0;
        while i < list.len()
            invariant
                i <= list@.len(),
                before == old(self)@,
                before.channels_wf(),
                self.registry.wf(),
                self@.rooms == before.rooms,
                forall|j: int|
                    0 <= j < list@.len() ==> before.is_member(room_id, #[trigger] list@[j].0)
                        && before.rooms[room_id][list@[j].0] == list@[j].1,
                forall|j: int, k: int| 0 <= j < k < list@.len() ==> list@[j].0 != list@[k].0,
                forall|user: UserId| self@.sessions.contains_key(user) == before.sessions.contains_key(user),
                forall|user: UserId| #[trigger]
                    before.sessions.contains_key(user) ==> self@.sessions[user] == if listed(list@, i as int, user)
                        && before.receives(room_id, exclude, user) {
                        SessionView {
                            handle: before.sessions[user].handle,
                            channel: before.sessions[user].channel.push(message@),
                        }
                    } else {
                        before.sessions[user]
                    },
            decreases list@.len() - i,
        {
            let (user, handle) = list[i];
            let ghost sessions = self@.sessions;
            proof {
                self.lemma_registry_wf();
            }
            assert(!listed(list@, i as int, user));
            if exclude != Some(user) {
                let _ = self.registry.deliver_to(user, handle, message.clone());
            }
            assert(self@.sessions == if exclude != Some(user) {
                deliver_to_session(sessions, user, handle, message@)
            } else {
                sessions
            });
            assert forall|other: UserId| listed(list@, i + 1, other) == (listed(list@, i as int, other) || other
                == user) by {
                if listed(list@, i as int, other) {
                    let j = choose|j: int| 0 <= j < i && (#[trigger] list@[j]).0 == other;
                    assert(0 <= j < i + 1 && list@[j].0 == other);
                }
                if other == user {
                    assert(list@[i as int].0 == other);
                }
                if listed(list@, i + 1, other) {
                    let j = choose|j: int| 0 <= j < i + 1 && (#[trigger] list@[j]).0 == other;
                    if j < i {
                        assert(listed(list@, i as int, other));
                    }
                }
            }
            i = i + 1;
        }
        proof {
            let target = before.fan_out(room_id, exclude, message@);
            assert forall|user: UserId| before.sessions.contains_key(user) implies self@.sessions[user]
                == target.sessions[user] by {
                if before.receives(room_id, exclude, user) {
                    let j = choose|j: int| 0 <= j < list@.len() && #[trigger] list@[j].0 == user;
                    assert(list@[j].0 == user);
                    assert(listed(list@, list@.len() as int, user));
                }
            }
            assert(self@.sessions =~= target.sessions);
            self.lemma_registry_wf();
        }
    }

    /// Fans `message` out to `room`, leaving out its sender: every other
    /// member gets it once, at the back of their channel. A room that does
    /// not exist, or whose only member is the sender, leaves everything as
    /// it is; that is no error.
    pub fn broadcast_to_room(&mut self, room_id: RoomId, sender_id: UserId, message: &BroadcastMessage)
        requires
            old(self).wf(),
        ensures
            final(self)@ == old(self)@.fan_out(room_id, Some(sender_id), message@),
            final(self).wf(),
    {
        self.fan_out(room_id, Some(sender_id), message)
    }

    /// Fans `message` out to every member of `room`, nobody left out.
    pub fn broadcast_to_all(&mut self, room_id: RoomId, message: &BroadcastMessage)
        requires
            old(self).wf(),
        ensures
            final(self)@ == old(self)@.fan_out(room_id, None, message@),
            final(self).wf(),
    {
        self.fan_out(room_id, None, message)
    }

    /// Enqueues `message` for `user` where they are registered, and says
    /// whether they are.
    pub fn send_to_user(&mut self, user: UserId, message: &BroadcastMessage) -> (delivered: bool)
        requires
            old(self).wf(),
        ensures
            delivered == old(self)@.sessions.contains_key(user),
            final(self)@ == old(self)@.deliver(user, message@),
            final(self).wf(),
    {
        proof {
            self.lemma_registry_wf();
        }
        let delivered = self.registry.deliver(user, message.clone());
        proof {
            self.lemma_registry_wf();
        }
        delivered
    }

    /// Takes the oldest message that waits for the session `handle` of
    /// `user`: what the connection writes out next. `None` where nothing
    /// waits, and where `handle` is no longer the registered session.
    pub fn receive(&mut self, user: UserId, handle: SessionHandle) -> (message: Option<BroadcastMessage>)
        requires
            old(self).wf(),
        ensures
            final(self)@ == old(self)@.take(user, handle),
            match message {
                Some(m) => old(self)@.next_for(user, handle) == Some(m@),
                None => old(self)@.next_for(user, handle) is None,
            },
            final(self).wf(),
    {
        proof {
            self.lemma_registry_wf();
        }
        let message = self.registry.receive(user, handle);
        proof {
            self.lemma_registry_wf();
        }
        message
    }
}

} // verus!
