use rusty_chat::message::{BroadcastMessage, BroadcastMessageType, Timestamp};
use rusty_chat::protocol::{ClientMessage, ServerMessage};
use rusty_chat::ws_server::{self, ChatServer, Command, PrivateMessage, ReadReceipt, SystemMessage, TypingNotice};
use rusty_chat::ws_session::ChatSession;

const ROOM: u128 = 0x100;
const ALICE: u128 = 0xA;
const BOB: u128 = 0xB;

fn frames(session: &ChatSession, server: &mut ChatServer) -> Vec<ServerMessage> {
    let mut out = Vec::new();
    while let Some(frame) = session.next_frame(server) {
        out.push(frame);
    }
    out
}

fn pair() -> (ChatServer, ChatSession, ChatSession) {
    let mut server = ChatServer::new();
    let alice = ChatSession::new(ALICE, ROOM, 1);
    let bob = ChatSession::new(BOB, ROOM, 2);
    alice.started(&mut server);
    bob.started(&mut server);
    frames(&alice, &mut server);
    frames(&bob, &mut server);
    (server, alice, bob)
}

#[test]
fn new_session_keeps_its_parts() {
    let session = ChatSession::new(ALICE, ROOM, 7);
    assert_eq!(session, ChatSession { user_id: ALICE, room_id: ROOM, handle: 7 });
}

#[test]
fn starting_registers_and_joins() {
    let mut server = ChatServer::new();
    let alice = ChatSession::new(ALICE, ROOM, 1);
    alice.started(&mut server);
    assert_eq!(server.connection_manager().lookup_session(ALICE), Some(1));
    assert!(server.connection_manager().is_user_in_room(ROOM, ALICE));
    let bob = ChatSession::new(BOB, ROOM, 2);
    let at = bob.started(&mut server);
    assert_eq!(frames(&alice, &mut server), vec![ServerMessage::Join { room_id: ROOM, user_id: BOB, timestamp: at }]);
}

#[test]
fn stopping_leaves_and_unregisters() {
    let (mut server, alice, bob) = pair();
    let at = alice.stopped(&mut server);
    assert_eq!(server.connection_manager().lookup_session(ALICE), None);
    assert!(!server.connection_manager().is_user_in_room(ROOM, ALICE));
    assert_eq!(frames(&bob, &mut server), vec![ServerMessage::Leave { room_id: ROOM, user_id: ALICE, timestamp: at }]);
    alice.stopped(&mut server);
    assert!(frames(&bob, &mut server).is_empty());
}

#[test]
fn stopping_an_old_connection_spares_the_new_one() {
    let (mut server, alice, _bob) = pair();
    let again = ChatSession::new(ALICE, ROOM, 10);
    again.started(&mut server);
    alice.stopped(&mut server);
    assert_eq!(server.connection_manager().lookup_session(ALICE), Some(10));
}

#[test]
fn text_frame_becomes_a_broadcast_from_the_session_user() {
    let session = ChatSession::new(ALICE, ROOM, 1);
    assert_eq!(
        session.command_for(ClientMessage::Text { content: "hi".to_string() }),
        Some(Command::Broadcast(ws_server::BroadcastMessage {
            room_id: ROOM,
            message: "hi".to_string(),
            sender_id: ALICE,
        }))
    );
}

#[test]
fn private_frame_becomes_a_direct_send() {
    let session = ChatSession::new(ALICE, ROOM, 1);
    assert_eq!(
        session.command_for(ClientMessage::Private { to: BOB, content: "psst".to_string() }),
        Some(Command::DirectSend(PrivateMessage { to: BOB, from: ALICE, content: "psst".to_string() }))
    );
}

#[test]
fn typing_and_read_frames_speak_for_the_session_user() {
    let session = ChatSession::new(ALICE, ROOM, 1);
    assert_eq!(
        session.command_for(ClientMessage::Typing { user_id: BOB }),
        Some(Command::Typing(TypingNotice { room_id: ROOM, sender_id: ALICE }))
    );
    assert_eq!(
        session.command_for(ClientMessage::Read { message_id: "m1".to_string() }),
        Some(Command::Read(ReadReceipt { room_id: ROOM, sender_id: ALICE, message_id: "m1".to_string() }))
    );
}

#[test]
fn join_and_leave_frames_ask_nothing() {
    let (mut server, alice, bob) = pair();
    assert_eq!(alice.command_for(ClientMessage::Join { room_id: "other".to_string(), user_id: ALICE }), None);
    assert_eq!(alice.command_for(ClientMessage::Leave { room_id: "r1".to_string(), user_id: BOB }), None);
    assert_eq!(alice.handle(ClientMessage::Leave { room_id: "r1".to_string(), user_id: BOB }, &mut server), None);
    assert!(server.connection_manager().is_user_in_room(ROOM, BOB));
    assert!(frames(&bob, &mut server).is_empty());
}

#[test]
fn handled_text_reaches_the_other_session_as_a_frame() {
    let (mut server, alice, bob) = pair();
    let at = alice.handle(ClientMessage::Text { content: "hi".to_string() }, &mut server);
    let at = at.expect("a text frame is a command");
    assert_eq!(
        frames(&bob, &mut server),
        vec![ServerMessage::Text { room_id: ROOM, user_id: ALICE, content: "hi".to_string(), timestamp: at }]
    );
    assert!(frames(&alice, &mut server).is_empty());
}

#[test]
fn handled_private_frame_reaches_the_peer_and_echoes() {
    let (mut server, alice, bob) = pair();
    let at = alice.handle(ClientMessage::Private { to: BOB, content: "psst".to_string() }, &mut server).unwrap();
    let expected = ServerMessage::Private { from: ALICE, to: BOB, content: "psst".to_string(), timestamp: at };
    assert_eq!(frames(&bob, &mut server), vec![expected]);
    assert_eq!(
        frames(&alice, &mut server),
        vec![ServerMessage::Private { from: ALICE, to: BOB, content: "psst".to_string(), timestamp: at }]
    );
}

#[test]
fn replaced_session_gets_no_frames() {
    let (mut server, alice, bob) = pair();
    let again = ChatSession::new(BOB, ROOM, 20);
    again.started(&mut server);
    frames(&alice, &mut server);
    alice.handle(ClientMessage::Text { content: "hi".to_string() }, &mut server);
    assert!(frames(&bob, &mut server).is_empty());
    assert_eq!(frames(&again, &mut server).len(), 1);
}

#[test]
fn server_carries_out_typing_read_and_system_commands() {
    let (mut server, alice, bob) = pair();
    let typed = server.handle(Command::Typing(TypingNotice { room_id: ROOM, sender_id: ALICE }));
    let read = server.handle(Command::Read(ReadReceipt {
        room_id: ROOM,
        sender_id: ALICE,
        message_id: "m9".to_string(),
    }));
    let noted = server.handle(Command::System(SystemMessage { room_id: ROOM, content: "note".to_string() }));
    assert_eq!(
        frames(&bob, &mut server),
        vec![
            ServerMessage::Typing { room_id: ROOM, user_id: ALICE, timestamp: typed },
            ServerMessage::Read { room_id: ROOM, user_id: ALICE, message_id: "m9".to_string(), timestamp: read },
            ServerMessage::System { room_id: ROOM, content: "note".to_string(), timestamp: noted },
        ]
    );
    assert_eq!(
        frames(&alice, &mut server),
        vec![ServerMessage::System { room_id: ROOM, content: "note".to_string(), timestamp: noted }]
    );
}

#[test]
fn server_unregisters_by_handle() {
    let (mut server, _alice, _bob) = pair();
    assert!(!server.unregister(ALICE, 99));
    assert!(server.unregister(ALICE, 1));
    assert_eq!(server.connection_manager().lookup_session(ALICE), None);
}

#[test]
fn frame_of_each_kind() {
    let at = Timestamp { secs: 9, nanos: 1 };
    let make = |room: u128, kind: BroadcastMessageType, content: &str| BroadcastMessage {
        room_id: room,
        sender_id: ALICE,
        content: content.to_string(),
        message_type: kind,
        timestamp: at,
    };
    assert_eq!(
        ServerMessage::from_broadcast(make(ROOM, BroadcastMessageType::Text, "t")),
        ServerMessage::Text { room_id: ROOM, user_id: ALICE, content: "t".to_string(), timestamp: at }
    );
    assert_eq!(
        ServerMessage::from_broadcast(make(0, BroadcastMessageType::Text, "t")),
        ServerMessage::Text { room_id: 0, user_id: ALICE, content: "t".to_string(), timestamp: at }
    );
    assert_eq!(
        ServerMessage::from_broadcast(make(0, BroadcastMessageType::Private { to: BOB }, "t")),
        ServerMessage::Private { from: ALICE, to: BOB, content: "t".to_string(), timestamp: at }
    );
    assert_eq!(
        ServerMessage::from_broadcast(make(ROOM, BroadcastMessageType::Typing, "typing")),
        ServerMessage::Typing { room_id: ROOM, user_id: ALICE, timestamp: at }
    );
    assert_eq!(
        ServerMessage::from_broadcast(make(ROOM, BroadcastMessageType::Read, "m1")),
        ServerMessage::Read { room_id: ROOM, user_id: ALICE, message_id: "m1".to_string(), timestamp: at }
    );
    assert_eq!(
        ServerMessage::from_broadcast(make(ROOM, BroadcastMessageType::Join, "joined")),
        ServerMessage::Join { room_id: ROOM, user_id: ALICE, timestamp: at }
    );
    assert_eq!(
        ServerMessage::from_broadcast(make(ROOM, BroadcastMessageType::Leave, "left")),
        ServerMessage::Leave { room_id: ROOM, user_id: ALICE, timestamp: at }
    );
    assert_eq!(
        ServerMessage::from_broadcast(make(ROOM, BroadcastMessageType::System, "s")),
        ServerMessage::System { room_id: ROOM, content: "s".to_string(), timestamp: at }
    );
}

#[test]
fn echo_of_a_private_frame_to_an_absent_user_names_that_user() {
    let mut server = ChatServer::new();
    let alice = ChatSession::new(ALICE, ROOM, 1);
    alice.started(&mut server);
    let at = alice.handle(ClientMessage::Private { to: BOB, content: "hey".to_string() }, &mut server).unwrap();
    assert_eq!(
        frames(&alice, &mut server),
        vec![ServerMessage::Private { from: ALICE, to: BOB, content: "hey".to_string(), timestamp: at }]
    );
    assert_eq!(server.connection_manager().lookup_session(BOB), None);
}

#[test]
fn sessions_to_the_same_room_name_share_the_room() {
    let mut server = ChatServer::new();
    let alice = ChatSession::open(&mut server, ALICE, "r1", 1);
    let bob = ChatSession::open(&mut server, BOB, "r1", 2);
    assert_eq!(alice.room_id, bob.room_id);
    assert_eq!((alice.user_id, alice.handle), (ALICE, 1));
    assert_ne!(alice.room_id, 0);
    alice.started(&mut server);
    bob.started(&mut server);
    frames(&alice, &mut server);
    let at = alice.handle(ClientMessage::Text { content: "hi".to_string() }, &mut server).unwrap();
    assert_eq!(
        frames(&bob, &mut server),
        vec![ServerMessage::Text { room_id: bob.room_id, user_id: ALICE, content: "hi".to_string(), timestamp: at }]
    );
    assert_eq!(server.room_name(bob.room_id), Some("r1".to_string()));
}

#[test]
fn sessions_to_different_room_names_are_apart() {
    let mut server = ChatServer::new();
    let alice = ChatSession::open(&mut server, ALICE, "general", 1);
    let bob = ChatSession::open(&mut server, BOB, "default", 2);
    assert_ne!(alice.room_id, bob.room_id);
    alice.started(&mut server);
    bob.started(&mut server);
    alice.handle(ClientMessage::Text { content: "hi".to_string() }, &mut server);
    assert!(frames(&bob, &mut server).is_empty());
    assert!(frames(&alice, &mut server).is_empty());
}

#[test]
fn opening_a_session_changes_nothing_in_the_relay() {
    let mut server = ChatServer::new();
    let alice = ChatSession::open(&mut server, ALICE, "r1", 1);
    assert_eq!(server.connection_manager().lookup_session(ALICE), None);
    assert!(!server.connection_manager().is_user_in_room(alice.room_id, ALICE));
    assert!(!alice.is_live(&server));
    alice.started(&mut server);
    assert!(alice.is_live(&server));
}

#[test]
fn pull_gives_all_frames_in_order_and_empties_the_channel() {
    let (mut server, alice, bob) = pair();
    let first = alice.handle(ClientMessage::Text { content: "one".to_string() }, &mut server).unwrap();
    let second = alice.handle(ClientMessage::Typing { user_id: ALICE }, &mut server).unwrap();
    let third = alice.handle(ClientMessage::Text { content: "three".to_string() }, &mut server).unwrap();
    assert_eq!(
        bob.pull(&mut server),
        Some(vec![
            ServerMessage::Text { room_id: ROOM, user_id: ALICE, content: "one".to_string(), timestamp: first },
            ServerMessage::Typing { room_id: ROOM, user_id: ALICE, timestamp: second },
            ServerMessage::Text { room_id: ROOM, user_id: ALICE, content: "three".to_string(), timestamp: third },
        ])
    );
    assert_eq!(bob.pull(&mut server), Some(vec![]));
    assert_eq!(alice.pull(&mut server), Some(vec![]));
}

#[test]
fn pull_tells_a_replaced_session_to_close() {
    let (mut server, alice, bob) = pair();
    let again = ChatSession::new(BOB, ROOM, 20);
    again.started(&mut server);
    alice.handle(ClientMessage::Text { content: "hi".to_string() }, &mut server);
    assert!(!bob.is_live(&server));
    assert_eq!(bob.pull(&mut server), None);
    assert_eq!(again.pull(&mut server).map(|frames| frames.len()), Some(1));
    bob.stopped(&mut server);
    assert!(again.is_live(&server));
}

#[test]
fn pull_tells_a_session_that_left_to_close() {
    let (mut server, alice, _bob) = pair();
    alice.stopped(&mut server);
    assert_eq!(alice.pull(&mut server), None);
}

#[test]
fn room_of_a_frame() {
    let at = Timestamp { secs: 1, nanos: 0 };
    assert_eq!(ServerMessage::Join { room_id: 7, user_id: ALICE, timestamp: at }.room_id(), Some(7));
    assert_eq!(
        ServerMessage::Private { from: ALICE, to: BOB, content: "x".to_string(), timestamp: at }.room_id(),
        None
    );
}

#[test]
fn joining_from_outside_any_connection_always_joins() {
    let (mut server, alice, _bob) = pair();
    server.join_registered(0x200, ALICE);
    assert_eq!(server.connection_manager().member_handle(0x200, ALICE), Some(1));
    assert_eq!(server.connection_manager().lookup_session(ALICE), Some(1));

    let at = server.join_registered(ROOM, 0xC);
    assert_eq!(server.connection_manager().member_handle(ROOM, 0xC), Some(0));
    assert_eq!(server.connection_manager().lookup_session(0xC), Some(0));
    assert_eq!(
        frames(&alice, &mut server),
        vec![ServerMessage::Join { room_id: ROOM, user_id: 0xC, timestamp: at }]
    );
}
