//! What holds of the relay: that every command keeps its invariant, and the
//! laws that the commands obey together.

use crate::channel::{lemma_push_is_newest, DEFAULT_CHANNEL_CAPACITY};
use crate::ids::{RoomId, SessionHandle, UserId};
use crate::message::{BroadcastMessageType, DraftView, MessageView, Timestamp};
use crate::relay::{CommandView, MembershipOp, RelayView};
use vstd::prelude::*;

verus! {

/// Registering a session keeps the invariant.
pub proof fn lemma_register_keeps_wf(s: RelayView, user: UserId, handle: SessionHandle, capacity: nat)
    requires
        s.wf(),
    ensures
        s.register(user, handle, capacity).wf(),
{
}

/// Unregistering a session keeps the invariant.
pub proof fn lemma_unregister_keeps_wf(s: RelayView, user: UserId, handle: SessionHandle)
    requires
        s.wf(),
    ensures
        s.unregister(user, handle).wf(),
{
}

/// Joining never leaves an empty room behind.
pub proof fn lemma_join_keeps_wf(s: RelayView, room: RoomId, user: UserId, handle: SessionHandle)
    ensures
        s.no_empty_room() ==> s.join(room, user, handle).no_empty_room(),
        s.wf() ==> s.join(room, user, handle).wf(),
{
    let t = s.join(room, user, handle);
    assert(t.rooms[room].contains_key(user));
    if s.no_empty_room() {
        assert forall|r: RoomId| #[trigger] t.rooms.contains_key(r) implies !t.rooms[r].is_empty() by {
            if r != room {
                assert(s.rooms.contains_key(r));
            }
        }
    }
}

/// Leaving never leaves an empty room behind: the room goes with its last
/// member.
pub proof fn lemma_leave_keeps_wf(s: RelayView, room: RoomId, user: UserId)
    ensures
        s.no_empty_room() ==> s.leave(room, user).no_empty_room(),
        s.wf() ==> s.leave(room, user).wf(),
{
    let t = s.leave(room, user);
    if s.no_empty_room() {
        assert forall|r: RoomId| #[trigger] t.rooms.contains_key(r) implies !t.rooms[r].is_empty() by {
            assert(s.rooms.contains_key(r));
        }
    }
}

/// A fan-out keeps the invariant and touches nothing but channels.
pub proof fn lemma_fan_out_keeps_wf(s: RelayView, room: RoomId, exclude: Option<UserId>, message: MessageView)
    ensures
        s.fan_out(room, exclude, message).rooms == s.rooms,
        s.fan_out(room, exclude, message).sessions.dom() == s.sessions.dom(),
        forall|user: UserId| #[trigger]
            s.sessions.contains_key(user) ==> s.fan_out(room, exclude, message).sessions[user].handle
                == s.sessions[user].handle,
        s.wf() ==> s.fan_out(room, exclude, message).wf(),
{
    let t = s.fan_out(room, exclude, message);
    assert(t.sessions.dom() =~= s.sessions.dom());
    if s.wf() {
        assert forall|user: UserId| #[trigger] t.sessions.contains_key(user) implies t.sessions[user].channel.wf() by {
            assert(s.sessions.contains_key(user));
        }
    }
}

/// A direct delivery keeps the invariant.
pub proof fn lemma_deliver_keeps_wf(s: RelayView, user: UserId, message: MessageView)
    requires
        s.wf(),
    ensures
        s.deliver(user, message).wf(),
{
    let t = s.deliver(user, message);
    assert forall|u: UserId| #[trigger] t.sessions.contains_key(u) implies t.sessions[u].channel.wf() by {
        assert(s.sessions.contains_key(u));
    }
}

/// Taking a message out keeps the invariant.
pub proof fn lemma_take_keeps_wf(s: RelayView, user: UserId, handle: SessionHandle)
    requires
        s.wf(),
    ensures
        s.take(user, handle).wf(),
{
    let t = s.take(user, handle);
    assert forall|u: UserId| #[trigger] t.sessions.contains_key(u) implies t.sessions[u].channel.wf() by {
        assert(s.sessions.contains_key(u));
    }
}

/// Every command keeps the invariant.
pub proof fn lemma_step_keeps_wf(s: RelayView, command: CommandView, at: Timestamp)
    requires
        s.wf(),
    ensures
        s.step(command, at).wf(),
{
    match command {
        CommandView::RegisterSession { user, handle } => {
            lemma_register_keeps_wf(s, user, handle, DEFAULT_CHANNEL_CAPACITY as nat);
        },
        CommandView::JoinRoom { room, user, handle } => {
            lemma_join_keeps_wf(s, room, user, handle);
            lemma_fan_out_keeps_wf(s.join(room, user, handle), room, Some(user), DraftView::join(room, user).at(at));
        },
        CommandView::LeaveRoom { room, user } => {
            if s.is_member(room, user) {
                let told = s.fan_out(room, Some(user), DraftView::leave(room, user).at(at));
                lemma_fan_out_keeps_wf(s, room, Some(user), DraftView::leave(room, user).at(at));
                lemma_leave_keeps_wf(told, room, user);
                lemma_unregister_keeps_wf(told.leave(room, user), user, s.rooms[room][user]);
            }
        },
        CommandView::Broadcast { room, sender, content } => {
            lemma_fan_out_keeps_wf(s, room, Some(sender), DraftView::text(room, sender, content).at(at));
        },
        CommandView::Typing { room, sender } => {
            lemma_fan_out_keeps_wf(s, room, Some(sender), DraftView::typing(room, sender).at(at));
        },
        CommandView::Read { room, sender, message_id } => {
            lemma_fan_out_keeps_wf(s, room, Some(sender), DraftView::read(room, sender, message_id).at(at));
        },
        CommandView::System { room, content } => {
            lemma_fan_out_keeps_wf(s, room, None, DraftView::system(room, content).at(at));
        },
        CommandView::DirectSend { from, to, content } => {
            let message = DraftView::direct(from, to, content).at(at);
            lemma_deliver_keeps_wf(s, to, message);
            lemma_deliver_keeps_wf(s.deliver(to, message), from, message);
        },
    }
}

/// Whatever commands a relay that starts empty is given, in whatever order,
/// it never holds a room without members and never a channel over its
/// capacity.
pub proof fn lemma_run_keeps_wf(commands: Seq<(CommandView, Timestamp)>)
    ensures
        RelayView::empty().run(commands).wf(),
    decreases commands.len(),
{
    if commands.len() > 0 {
        lemma_run_keeps_wf(commands.drop_last());
        lemma_step_keeps_wf(
            RelayView::empty().run(commands.drop_last()),
            commands.last().0,
            commands.last().1,
        );
    }
}

/// In a state without empty rooms, a room has no members exactly when the
/// table does not hold it.
pub proof fn lemma_empty_room_is_absent(s: RelayView, room: RoomId)
    requires
        s.no_empty_room(),
    ensures
        s.members(room).is_empty() <==> !s.rooms.contains_key(room),
{
    if s.rooms.contains_key(room) {
        assert(!s.rooms[room].is_empty());
    }
}

/// After any sequence of joins and leaves from the empty table, a room
/// whose members have all left is gone from the table: no room lingers
/// without members.
pub proof fn lemma_no_dangling_room(ops: Seq<MembershipOp>, room: RoomId)
    ensures
        RelayView::empty().apply_all(ops).no_empty_room(),
        RelayView::empty().apply_all(ops).members(room).is_empty() <==> !RelayView::empty().apply_all(
            ops,
        ).rooms.contains_key(room),
    decreases ops.len(),
{
    if ops.len() > 0 {
        let before = RelayView::empty().apply_all(ops.drop_last());
        lemma_no_dangling_room(ops.drop_last(), room);
        match ops.last() {
            MembershipOp::Join { room: r, user, handle } => lemma_join_keeps_wf(before, r, user, handle),
            MembershipOp::Leave { room: r, user } => lemma_leave_keeps_wf(before, r, user),
        }
    }
    lemma_empty_room_is_absent(RelayView::empty().apply_all(ops), room);
}

/// A fan-out that leaves out the sender puts the message at the back of the
/// channel of every other member whose session is live, exactly once, and
/// nowhere else: not in the sender's channel, and in no channel of a user
/// outside the room.
pub proof fn lemma_fan_out_reaches_others_only(s: RelayView, room: RoomId, sender: UserId, message: MessageView)
    requires
        s.wf(),
    ensures
        forall|user: UserId|
            s.is_member(room, user) && user != sender && s.is_live(user, s.rooms[room][user]) ==> {
                &&& #[trigger] s.fan_out(room, Some(sender), message).sessions[user].channel
                    == s.sessions[user].channel.push(message)
                &&& s.sessions[user].channel.capacity > 0 ==> s.fan_out(
                    room,
                    Some(sender),
                    message,
                ).sessions[user].channel.queue.last() == message
            },
        s.sessions.contains_key(sender) ==> s.fan_out(room, Some(sender), message).sessions[sender]
            == s.sessions[sender],
        forall|user: UserId|
            s.sessions.contains_key(user) && !s.is_member(room, user) ==> #[trigger] s.fan_out(
                room,
                Some(sender),
                message,
            ).sessions[user] == s.sessions[user],
        s.fan_out(room, Some(sender), message).rooms == s.rooms,
        s.fan_out(room, Some(sender), message).sessions.dom() == s.sessions.dom(),
{
    let t = s.fan_out(room, Some(sender), message);
    lemma_fan_out_keeps_wf(s, room, Some(sender), message);
    assert forall|user: UserId|
        s.is_member(room, user) && user != sender && s.is_live(user, s.rooms[room][user]) implies {
        &&& #[trigger] t.sessions[user].channel == s.sessions[user].channel.push(message)
        &&& s.sessions[user].channel.capacity > 0 ==> t.sessions[user].channel.queue.last() == message
    } by {
        assert(s.receives(room, Some(sender), user));
        assert(s.sessions.contains_key(user));
        if s.sessions[user].channel.capacity > 0 {
            lemma_push_is_newest(s.sessions[user].channel, message);
        }
    }
}

/// A member who has not been in the room before leaves the membership table
/// exactly as it was before they joined.
pub proof fn lemma_join_then_leave_restores_membership(
    s: RelayView,
    room: RoomId,
    user: UserId,
    handle: SessionHandle,
)
    requires
        s.no_empty_room(),
        !s.is_member(room, user),
    ensures
        s.join(room, user, handle).leave(room, user).rooms == s.rooms,
{
    let joined = s.join(room, user, handle);
    let rest = joined.rooms[room].remove(user);
    assert(rest =~= s.roster(room));
    if s.rooms.contains_key(room) {
        assert(!s.rooms[room].is_empty());
    }
    assert(joined.leave(room, user).rooms =~= s.rooms);
}

/// The same for the two commands: joining a room and leaving it again, with
/// the notices that go with both, leaves the membership table as it was.
pub proof fn lemma_join_room_then_leave_room_restores_membership(
    s: RelayView,
    room: RoomId,
    user: UserId,
    handle: SessionHandle,
    joined_at: Timestamp,
    left_at: Timestamp,
)
    requires
        s.no_empty_room(),
        !s.is_member(room, user),
    ensures
        s.join_room(room, user, handle, joined_at).leave_room(room, user, left_at).rooms == s.rooms,
{
    lemma_join_then_leave_restores_membership(s, room, user, handle);
    let joined = s.join_room(room, user, handle, joined_at);
    assert(joined.rooms == s.join(room, user, handle).rooms);
    assert(joined.is_member(room, user));
    let told = joined.fan_out(room, Some(user), DraftView::leave(room, user).at(left_at));
    assert(told.rooms == joined.rooms);
    assert(told.leave(room, user).rooms == s.join(room, user, handle).leave(room, user).rooms);
}

/// When a member leaves, everyone who stays is told before the place is
/// free: in the state that a leave results in, the leaver is out of the room
/// and the notice is already at the back of every remaining live member's
/// channel. Should the same user join again, the notice of that comes behind
/// the notice of the leave.
pub proof fn lemma_leave_is_announced_before_rejoin(
    s: RelayView,
    room: RoomId,
    user: UserId,
    left_at: Timestamp,
    handle: SessionHandle,
    joined_at: Timestamp,
)
    requires
        s.wf(),
        s.is_member(room, user),
    ensures
        !s.leave_room(room, user, left_at).is_member(room, user),
        forall|other: UserId|
            s.is_member(room, other) && other != user && s.is_live(other, s.rooms[room][other]) ==> {
                &&& s.leave_room(room, user, left_at).is_member(room, other)
                &&& #[trigger] s.leave_room(room, user, left_at).sessions[other].channel
                    == s.sessions[other].channel.push(DraftView::leave(room, user).at(left_at))
                &&& s.leave_room(room, user, left_at).join_room(
                    room,
                    user,
                    handle,
                    joined_at,
                ).sessions[other].channel == s.sessions[other].channel.push(
                    DraftView::leave(room, user).at(left_at),
                ).push(DraftView::join(room, user).at(joined_at))
            },
{
    let notice = DraftView::leave(room, user).at(left_at);
    let told = s.fan_out(room, Some(user), notice);
    let gone = told.leave(room, user);
    let left = s.leave_room(room, user, left_at);
    assert(left == gone.unregister(user, s.rooms[room][user]));
    assert forall|other: UserId|
        s.is_member(room, other) && other != user && s.is_live(other, s.rooms[room][other]) implies {
        &&& left.is_member(room, other)
        &&& #[trigger] left.sessions[other].channel == s.sessions[other].channel.push(notice)
        &&& left.join_room(room, user, handle, joined_at).sessions[other].channel
            == s.sessions[other].channel.push(notice).push(DraftView::join(room, user).at(joined_at))
    } by {
        assert(s.receives(room, Some(user), other));
        assert(told.sessions[other].channel == s.sessions[other].channel.push(notice));
        let rest = s.rooms[room].remove(user);
        assert(rest.contains_key(other));
        assert(!rest.is_empty());
        assert(gone.rooms[room] == rest);
        assert(left.sessions[other] == told.sessions[other]);
        let back = left.join(room, user, handle);
        assert(back.rooms[room][other] == s.rooms[room][other]);
        assert(back.receives(room, Some(user), other));
    }
}

/// A direct message to a user who is not registered changes nothing but the
/// sender's own channel, which gets the echo: a message of the private kind
/// that names the recipient it was meant for. Nobody else receives
/// anything, and the membership table stays as it is.
pub proof fn lemma_direct_send_to_absent_recipient(
    s: RelayView,
    from: UserId,
    to: UserId,
    content: Seq<char>,
    at: Timestamp,
)
    requires
        !s.sessions.contains_key(to),
    ensures
        s.direct_send(from, to, content, at) == s.deliver(from, DraftView::direct(from, to, content).at(at)),
        s.direct_send(from, to, content, at).rooms == s.rooms,
        s.direct_send(from, to, content, at).sessions.dom() == s.sessions.dom(),
        forall|user: UserId|
            s.sessions.contains_key(user) && user != from ==> #[trigger] s.direct_send(
                from,
                to,
                content,
                at,
            ).sessions[user] == s.sessions[user],
        s.sessions.contains_key(from) ==> s.direct_send(from, to, content, at).sessions[from].channel
            == s.sessions[from].channel.push(DraftView::direct(from, to, content).at(at)),
        DraftView::direct(from, to, content).at(at).message_type == (BroadcastMessageType::Private { to }),
        DraftView::direct(from, to, content).at(at).sender_id == from,
        DraftView::direct(from, to, content).at(at).content == content,
{
    let t = s.direct_send(from, to, content, at);
    assert(t.sessions.dom() =~= s.sessions.dom());
}

/// Joining a room twice under the same handle is the same as joining it
/// once: a user is never in a room twice.
pub proof fn lemma_join_is_idempotent(s: RelayView, room: RoomId, user: UserId, handle: SessionHandle)
    ensures
        s.join(room, user, handle).join(room, user, handle) == s.join(room, user, handle),
        s.join(room, user, handle).is_member(room, user),
        s.join(room, user, handle).members(room) == s.members(room).insert(user),
{
    let once = s.join(room, user, handle);
    assert(once.roster(room).insert(user, handle) =~= once.roster(room));
    assert(once.join(room, user, handle).rooms =~= once.rooms);
    assert(once.members(room) =~= s.members(room).insert(user));
}

/// Leaving a room twice is the same as leaving it once: the second leave
/// finds no membership, tells nobody and removes nothing.
pub proof fn lemma_leave_room_is_idempotent(
    s: RelayView,
    room: RoomId,
    user: UserId,
    first: Timestamp,
    second: Timestamp,
)
    ensures
        s.leave_room(room, user, first).leave_room(room, user, second) == s.leave_room(room, user, first),
{
    let left = s.leave_room(room, user, first);
    if s.is_member(room, user) {
        let told = s.fan_out(room, Some(user), DraftView::leave(room, user).at(first));
        assert(!told.leave(room, user).is_member(room, user));
    }
    assert(!left.is_member(room, user));
}

/// The last registration wins, and an unregister by the connection that it
/// replaced changes nothing.
pub proof fn lemma_stale_unregister_changes_nothing(
    s: RelayView,
    user: UserId,
    earlier: SessionHandle,
    later: SessionHandle,
    capacity: nat,
)
    requires
        earlier != later,
    ensures
        s.register(user, earlier, capacity).register(user, later, capacity).lookup(user) == Some(later),
        s.register(user, earlier, capacity).register(user, later, capacity).unregister(user, earlier)
            == s.register(user, earlier, capacity).register(user, later, capacity),
{
}

/// A connection that ends after a newer one of the same user has registered
/// and joined takes nothing from the newer one: its membership, its
/// registration and every channel stay as they are.
pub proof fn lemma_stale_disconnect_spares_newer_session(
    s: RelayView,
    room: RoomId,
    user: UserId,
    earlier: SessionHandle,
    later: SessionHandle,
    at: Timestamp,
)
    requires
        earlier != later,
        s.is_member(room, user),
        s.rooms[room][user] == later,
        s.is_live(user, later),
    ensures
        s.disconnect(room, user, earlier, at) == s,
{
}

/// Ending a connection twice is the same as ending it once.
pub proof fn lemma_disconnect_is_idempotent(
    s: RelayView,
    room: RoomId,
    user: UserId,
    handle: SessionHandle,
    first: Timestamp,
    second: Timestamp,
)
    ensures
        s.disconnect(room, user, handle, first).disconnect(room, user, handle, second) == s.disconnect(
            room,
            user,
            handle,
            first,
        ),
{
    let once = s.disconnect(room, user, handle, first);
    if s.is_member(room, user) && s.rooms[room][user] == handle {
        let told = s.fan_out(room, Some(user), DraftView::leave(room, user).at(first));
        assert(!told.leave(room, user).is_member(room, user));
        assert(!once.is_member(room, user));
        assert(!once.is_live(user, handle));
    } else {
        assert(once.rooms == s.rooms);
        assert(!once.is_live(user, handle));
    }
}

/// Whoever is put into a room can be reached there: the session that
/// joined is the registered one of its user, and a fan-out to the room that
/// does not leave the user out reaches it. A session that was registered
/// before keeps its channel as it was.
pub proof fn lemma_join_makes_reachable(s: RelayView, room: RoomId, user: UserId, handle: SessionHandle)
    ensures
        s.join(room, user, handle).is_live(user, handle),
        s.join(room, user, handle).receives(room, None, user),
        s.is_live(user, handle) ==> s.join(room, user, handle).sessions == s.sessions,
        forall|other: UserId|
            other != user && s.sessions.contains_key(other) ==> #[trigger] s.join(
                room,
                user,
                handle,
            ).sessions[other] == s.sessions[other],
{
}

/// Two users who only joined a room reach each other: what the first
/// broadcasts is the one message in the channel of the second, and the
/// first gets nothing of it.
pub proof fn lemma_joined_members_hear_each_other(
    room: RoomId,
    first: UserId,
    first_handle: SessionHandle,
    second: UserId,
    second_handle: SessionHandle,
    joined_first: Timestamp,
    joined_second: Timestamp,
    content: Seq<char>,
    at: Timestamp,
)
    requires
        first != second,
    ensures
        ({
            let before = RelayView::empty().join_room(room, first, first_handle, joined_first).join_room(
                room,
                second,
                second_handle,
                joined_second,
            );
            let after = before.broadcast(room, first, content, at);
            &&& before.sessions[second].channel.queue == Seq::<MessageView>::empty()
            &&& after.sessions[second].channel.queue == seq![DraftView::text(room, first, content).at(at)]
            &&& after.sessions[first] == before.sessions[first]
        }),
{
    let one = RelayView::empty().join_room(room, first, first_handle, joined_first);
    let joined_one = RelayView::empty().join(room, first, first_handle);
    assert(joined_one.rooms[room].contains_key(first));
    assert(!joined_one.receives(room, Some(first), first));
    let joined_two = one.join(room, second, second_handle);
    assert(joined_two.rooms[room].contains_key(second));
    assert(joined_two.rooms[room].contains_key(first));
    let before = one.join_room(room, second, second_handle, joined_second);
    assert(!joined_two.receives(room, Some(second), second));
    assert(before.sessions[second].channel.queue =~= Seq::<MessageView>::empty());
    assert(before.receives(room, Some(first), second));
    let after = before.broadcast(room, first, content, at);
    assert(after.sessions[second].channel.queue =~= seq![DraftView::text(room, first, content).at(at)]);
}

} // verus!
