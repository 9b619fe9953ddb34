//! The session registry: which connection speaks for each user, and the
//! outbound channel that leads to it.

use crate::channel::{ChannelView, OutboundChannel, DEFAULT_CHANNEL_CAPACITY};
use crate::ids::{SessionHandle, UserId};
use crate::message::{BroadcastMessage, MessageView};
use crate::relay::SessionView;
use std::collections::HashMap;
use vstd::prelude::*;

verus! {

/// A registered session: the handle of its connection and the messages that
/// wait for it.
#[derive(Debug)]
struct Session {
    handle: SessionHandle,
    channel: OutboundChannel,
}

impl View for Session {
    type V = SessionView;

    closed spec fn view(&self) -> SessionView {
        SessionView { handle: self.handle, channel: self.channel@ }
    }
}

/// The registry of live sessions, one per user. Registering a user again
/// replaces the earlier session: the last registration wins.
#[derive(Debug)]
pub struct SessionRegistry {
    sessions: HashMap<UserId, Session>,
}

impl View for SessionRegistry {
    type V = Map<UserId, SessionView>;

    closed spec fn view(&self) -> Map<UserId, SessionView> {
        Map::new(|user: UserId| self.sessions@.contains_key(user), |user: UserId| self.sessions@[user]@)
    }
}

/// The registry after `message` was enqueued for `user`, where they are
/// registered under `handle`.
pub open spec fn deliver_to_session(
    sessions: Map<UserId, SessionView>,
    user: UserId,
    handle: SessionHandle,
    message: MessageView,
) -> Map<UserId, SessionView> {
    if sessions.contains_key(user) && sessions[user].handle == handle {
        sessions.insert(user, SessionView { handle, channel: sessions[user].channel.push(message) })
    } else {
        sessions
    }
}

impl SessionRegistry {
    /// Every channel is within its capacity.
    pub open spec fn wf(&self) -> bool {
        forall|user: UserId| #[trigger] self@.contains_key(user) ==> self@[user].channel.wf()
    }

    /// A registry without sessions.
    pub fn new() -> (registry: Self)
        ensures
            registry@ == Map::<UserId, SessionView>::empty(),
            registry.wf(),
    {
        let registry = SessionRegistry { sessions: HashMap::new() };
        assert(registry@ =~= Map::<UserId, SessionView>::empty());
        registry
    }

    /// Registers `handle` as the session of `user`, with an empty channel of
    /// the default capacity. An earlier session of the same user is evicted
    /// without notice, together with what was still queued for it.
    pub fn register(&mut self, user: UserId, handle: SessionHandle)
        requires
            old(self).wf(),
        ensures
            final(self)@ == old(self)@.insert(
                user,
                SessionView { handle, channel: ChannelView::empty(DEFAULT_CHANNEL_CAPACITY as nat) },
            ),
            final(self).wf(),
    {
        self.register_with_capacity(user, handle, DEFAULT_CHANNEL_CAPACITY)
    }

    /// As [`register`](Self::register), with a channel of the given capacity.
    pub fn register_with_capacity(&mut self, user: UserId, handle: SessionHandle, capacity: usize)
        requires
            old(self).wf(),
        ensures
            final(self)@ == old(self)@.insert(
                user,
                SessionView { handle, channel: ChannelView::empty(capacity as nat) },
            ),
            final(self).wf(),
    {
        let session = Session { handle, channel: OutboundChannel::new(capacity) };
        self.sessions.insert(user, session);
        assert(self@ =~= old(self)@.insert(
            user,
            SessionView { handle, channel: ChannelView::empty(capacity as nat) },
        ));
    }

    /// Removes the session of `user` if it is the one that `handle` names,
    /// and says whether it did. A caller whose session was replaced in the
    /// meantime holds an old handle and removes nothing.
    pub fn unregister(&mut self, user: UserId, handle: SessionHandle) -> (removed: bool)
        requires
            old(self).wf(),
        ensures
            removed == (old(self)@.contains_key(user) && old(self)@[user].handle == handle),
            final(self)@ == if removed {
                old(self)@.remove(user)
            } else {
                old(self)@
            },
            final(self).wf(),
    {
        if self.is_live(user, handle) {
            let _ = self.sessions.remove(&user);
            assert(self@ =~= old(self)@.remove(user));
            true
        } else {
            false
        }
    }

    /// The handle of the session registered for `user`.
    pub fn lookup(&self, user: UserId) -> (handle: Option<SessionHandle>)
        ensures
            handle == if self@.contains_key(user) {
                Some(self@[user].handle)
            } else {
                None
            },
    {
        match self.sessions.get(&user) {
            Some(session) => Some(session.handle),
            None => None,
        }
    }

    /// Whether `handle` is the registered session of `user`.
    pub fn is_live(&self, user: UserId, handle: SessionHandle) -> (live: bool)
        ensures
            live == (self@.contains_key(user) && self@[user].handle == handle),
    {
        match self.sessions.get(&user) {
            Some(session) => session.handle == handle,
            None => false,
        }
    }

    /// Enqueues `message` for `user` where `handle` is their registered
    /// session, and says whether it did.
    pub fn deliver_to(&mut self, user: UserId, handle: SessionHandle, message: BroadcastMessage) -> (delivered: bool)
        requires
            old(self).wf(),
        ensures
            delivered == (old(self)@.contains_key(user) && old(self)@[user].handle == handle),
            final(self)@ == deliver_to_session(old(self)@, user, handle, message@),
            final(self).wf(),
    {
        if !self.is_live(user, handle) {
            return false;
        }
        match self.sessions.remove(&user) {
            Some(mut session) => {
                assert(session@ == old(self)@[user]);
                session.channel.push(message);
                self.sessions.insert(user, session);
                assert(self@ =~= deliver_to_session(old(self)@, user, handle, message@));
                true
            },
            None => false,
        }
    }

    /// Enqueues `message` for `user` where they are registered, and says
    /// whether they are.
    pub fn deliver(&mut self, user: UserId, message: BroadcastMessage) -> (delivered: bool)
        requires
            old(self).wf(),
        ensures
            delivered == old(self)@.contains_key(user),
            delivered ==> final(self)@ == old(self)@.insert(
                user,
                SessionView {
                    handle: old(self)@[user].handle,
                    channel: old(self)@[user].channel.push(message@),
                },
            ),
            !delivered ==> final(self)@ == old(self)@,
            final(self).wf(),
    {
        match self.lookup(user) {
            Some(handle) => self.deliver_to(user, handle, message),
            None => false,
        }
    }

    /// Takes the oldest message that waits for the session `handle` of
    /// `user`. Returns `None` where nothing waits, and where `handle` is not
    /// the registered session of `user`.
    pub fn receive(&mut self, user: UserId, handle: SessionHandle) -> (message: Option<BroadcastMessage>)
        requires
            old(self).wf(),
        ensures
            final(self).wf(),
            old(self)@.contains_key(user) && old(self)@[user].handle == handle ==> {
                &&& final(self)@ == old(self)@.insert(
                    user,
                    SessionView { handle, channel: old(self)@[user].channel.pop() },
                )
                &&& match message {
                    Some(m) => old(self)@[user].channel.front() == Some(m@),
                    None => old(self)@[user].channel.front() is None,
                }
            },
            !(old(self)@.contains_key(user) && old(self)@[user].handle == handle) ==> {
                &&& final(self)@ == old(self)@
                &&& message is None
            },
    {
        if !self.is_live(user, handle) {
            return None;
        }
        match self.sessions.remove(&user) {
            Some(mut session) => {
                assert(session@ == old(self)@[user]);
                let message = session.channel.pop();
                self.sessions.insert(user, session);
                assert(self@ =~= old(self)@.insert(
                    user,
                    SessionView { handle, channel: old(self)@[user].channel.pop() },
                ));
                message
            },
            None => None,
        }
    }

    /// How many messages wait for `user`; zero for a user without a session.
    pub fn pending(&self, user: UserId) -> (count: usize)
        ensures
            count == if self@.contains_key(user) {
                self@[user].channel.queue.len()
            } else {
                0
            },
    {
        match self.sessions.get(&user) {
            Some(session) => session.channel.len(),
            None => 0,
        }
    }
}

} // verus!
