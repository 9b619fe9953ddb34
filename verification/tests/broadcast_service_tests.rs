use rusty_chat::broadcast_service::BroadcastService;
use rusty_chat::message::{BroadcastMessage, BroadcastMessageType, Timestamp};

const ROOM: u128 = 0x100;
const ALICE: u128 = 0xA;
const BOB: u128 = 0xB;
const CAROL: u128 = 0xC;

fn message(sender: u128, content: &str, kind: BroadcastMessageType, at: Timestamp) -> BroadcastMessage {
    BroadcastMessage { room_id: ROOM, sender_id: sender, content: content.to_string(), message_type: kind, timestamp: at }
}

fn drain(service: &mut BroadcastService, user: u128, handle: u64) -> Vec<BroadcastMessage> {
    let mut out = Vec::new();
    while let Some(m) = service.receive(user, handle) {
        out.push(m);
    }
    out
}

fn quiet_room() -> BroadcastService {
    let mut service = BroadcastService::new();
    for (user, handle) in [(ALICE, 1), (BOB, 2), (CAROL, 3)] {
        service.register_session(user, handle);
        service.add_user_to_room(ROOM, user, handle);
    }
    for (user, handle) in [(ALICE, 1), (BOB, 2), (CAROL, 3)] {
        drain(&mut service, user, handle);
    }
    service
}

#[test]
fn text_goes_to_the_others() {
    let mut service = quiet_room();
    let at = service.broadcast_text_message(ROOM, ALICE, "hi".to_string());
    let expected = message(ALICE, "hi", BroadcastMessageType::Text, at);
    assert_eq!(drain(&mut service, BOB, 2), vec![expected.clone()]);
    assert_eq!(drain(&mut service, CAROL, 3), vec![expected]);
    assert!(drain(&mut service, ALICE, 1).is_empty());
}

#[test]
fn typing_goes_to_the_others() {
    let mut service = quiet_room();
    let at = service.broadcast_typing(ROOM, BOB);
    let expected = message(BOB, "typing", BroadcastMessageType::Typing, at);
    assert_eq!(drain(&mut service, ALICE, 1), vec![expected.clone()]);
    assert_eq!(drain(&mut service, CAROL, 3), vec![expected]);
    assert!(drain(&mut service, BOB, 2).is_empty());
}

#[test]
fn read_receipt_names_the_message() {
    let mut service = quiet_room();
    let at = service.broadcast_read_receipt(ROOM, CAROL, "m-17".to_string());
    let expected = message(CAROL, "m-17", BroadcastMessageType::Read, at);
    assert_eq!(drain(&mut service, ALICE, 1), vec![expected.clone()]);
    assert_eq!(drain(&mut service, BOB, 2), vec![expected]);
    assert!(drain(&mut service, CAROL, 3).is_empty());
}

#[test]
fn system_message_reaches_every_member() {
    let mut service = quiet_room();
    let at = service.broadcast_system_message(ROOM, "restart at noon".to_string());
    let expected = message(0, "restart at noon", BroadcastMessageType::System, at);
    for (user, handle) in [(ALICE, 1), (BOB, 2), (CAROL, 3)] {
        assert_eq!(drain(&mut service, user, handle), vec![expected.clone()]);
    }
}

#[test]
fn system_message_reaches_a_member_with_the_nil_id() {
    let mut service = quiet_room();
    service.register_session(0, 9);
    service.add_user_to_room(ROOM, 0, 9);
    drain(&mut service, ALICE, 1);
    let at = service.broadcast_system_message(ROOM, "hello".to_string());
    assert_eq!(drain(&mut service, 0, 9), vec![message(0, "hello", BroadcastMessageType::System, at)]);
}

#[test]
fn join_is_announced_to_those_already_there() {
    let mut service = BroadcastService::new();
    service.register_session(ALICE, 1);
    service.add_user_to_room(ROOM, ALICE, 1);
    assert!(drain(&mut service, ALICE, 1).is_empty());
    service.register_session(BOB, 2);
    let at = service.add_user_to_room(ROOM, BOB, 2);
    assert_eq!(drain(&mut service, ALICE, 1), vec![message(BOB, "joined", BroadcastMessageType::Join, at)]);
    assert!(drain(&mut service, BOB, 2).is_empty());
    assert!(service.get_connection_manager().is_user_in_room(ROOM, BOB));
}

#[test]
fn leave_is_announced_then_membership_and_session_go() {
    let mut service = quiet_room();
    let at = service.remove_user_from_room(ROOM, ALICE);
    let expected = message(ALICE, "left", BroadcastMessageType::Leave, at);
    assert_eq!(drain(&mut service, BOB, 2), vec![expected.clone()]);
    assert_eq!(drain(&mut service, CAROL, 3), vec![expected]);
    assert!(!service.get_connection_manager().is_user_in_room(ROOM, ALICE));
    assert_eq!(service.get_connection_manager().lookup_session(ALICE), None);
}

#[test]
fn leaving_twice_is_leaving_once() {
    let mut service = quiet_room();
    service.remove_user_from_room(ROOM, ALICE);
    drain(&mut service, BOB, 2);
    drain(&mut service, CAROL, 3);
    service.remove_user_from_room(ROOM, ALICE);
    assert!(drain(&mut service, BOB, 2).is_empty());
    assert!(drain(&mut service, CAROL, 3).is_empty());
    let mut users = service.get_connection_manager().get_room_users(ROOM);
    users.sort();
    assert_eq!(users, vec![BOB, CAROL]);
}

#[test]
fn leaving_a_room_one_is_not_in_changes_nothing() {
    let mut service = quiet_room();
    service.remove_user_from_room(0x999, ALICE);
    assert_eq!(service.get_connection_manager().lookup_session(ALICE), Some(1));
    assert!(service.get_connection_manager().is_user_in_room(ROOM, ALICE));
    assert!(drain(&mut service, BOB, 2).is_empty());
}

#[test]
fn leave_keeps_the_session_of_a_newer_connection() {
    let mut service = quiet_room();
    service.register_session(ALICE, 11);
    service.remove_user_from_room(ROOM, ALICE);
    assert_eq!(service.get_connection_manager().lookup_session(ALICE), Some(11));
    assert!(!service.get_connection_manager().is_user_in_room(ROOM, ALICE));
}

#[test]
fn last_member_leaving_removes_the_room() {
    let mut service = BroadcastService::new();
    service.register_session(ALICE, 1);
    service.add_user_to_room(ROOM, ALICE, 1);
    service.remove_user_from_room(ROOM, ALICE);
    assert!(service.get_connection_manager().get_room_users(ROOM).is_empty());
    service.register_session(BOB, 2);
    service.add_user_to_room(ROOM, BOB, 2);
    assert_eq!(service.get_connection_manager().get_room_users(ROOM), vec![BOB]);
}

#[test]
fn leave_notice_comes_before_the_notice_of_a_new_join() {
    let mut service = quiet_room();
    let left_at = service.remove_user_from_room(ROOM, ALICE);
    service.register_session(ALICE, 10);
    let joined_at = service.add_user_to_room(ROOM, ALICE, 10);
    assert_eq!(
        drain(&mut service, BOB, 2),
        vec![
            message(ALICE, "left", BroadcastMessageType::Leave, left_at),
            message(ALICE, "joined", BroadcastMessageType::Join, joined_at),
        ]
    );
}

#[test]
fn direct_message_goes_to_recipient_and_echoes_to_sender() {
    let mut service = quiet_room();
    let at = service.send_direct_message(ALICE, BOB, "psst".to_string());
    let expected = BroadcastMessage {
        room_id: 0,
        sender_id: ALICE,
        content: "psst".to_string(),
        message_type: BroadcastMessageType::Private { to: BOB },
        timestamp: at,
    };
    assert_eq!(drain(&mut service, BOB, 2), vec![expected.clone()]);
    assert_eq!(drain(&mut service, ALICE, 1), vec![expected]);
    assert!(drain(&mut service, CAROL, 3).is_empty());
}

#[test]
fn direct_message_to_an_absent_user_only_echoes() {
    let mut service = quiet_room();
    let at = service.send_direct_message(ALICE, 0xDEAD, "anyone?".to_string());
    let got = drain(&mut service, ALICE, 1);
    assert_eq!(
        got,
        vec![BroadcastMessage {
            room_id: 0,
            sender_id: ALICE,
            content: "anyone?".to_string(),
            message_type: BroadcastMessageType::Private { to: 0xDEAD },
            timestamp: at,
        }]
    );
    assert!(drain(&mut service, BOB, 2).is_empty());
    assert!(drain(&mut service, CAROL, 3).is_empty());
    assert_eq!(service.get_connection_manager().lookup_session(0xDEAD), None);
    let mut users = service.get_connection_manager().get_room_users(ROOM);
    users.sort();
    assert_eq!(users, vec![ALICE, BOB, CAROL]);
}

#[test]
fn broadcast_to_an_empty_room_is_no_error() {
    let mut service = BroadcastService::new();
    service.register_session(ALICE, 1);
    service.broadcast_text_message(ROOM, ALICE, "hello?".to_string());
    assert!(drain(&mut service, ALICE, 1).is_empty());
    assert!(service.get_connection_manager().get_room_users(ROOM).is_empty());
}

#[test]
fn stamp_is_the_present_time() {
    let mut service = quiet_room();
    let first = service.broadcast_typing(ROOM, ALICE);
    assert!(first.secs > 1_600_000_000);
    assert!(first.nanos < 2_000_000_000);
}

#[test]
fn unregister_by_handle() {
    let mut service = BroadcastService::new();
    service.register_session(ALICE, 1);
    assert!(!service.unregister_session(ALICE, 2));
    assert!(service.unregister_session(ALICE, 1));
    assert_eq!(service.get_connection_manager().lookup_session(ALICE), None);
}

#[test]
fn direct_message_to_oneself_arrives_and_echoes() {
    let mut service = quiet_room();
    let at = service.send_direct_message(ALICE, ALICE, "note".to_string());
    let expected = BroadcastMessage {
        room_id: 0,
        sender_id: ALICE,
        content: "note".to_string(),
        message_type: BroadcastMessageType::Private { to: ALICE },
        timestamp: at,
    };
    assert_eq!(drain(&mut service, ALICE, 1), vec![expected.clone(), expected]);
}

#[test]
fn direct_message_from_an_unregistered_sender_reaches_the_recipient_only() {
    let mut service = quiet_room();
    let at = service.send_direct_message(0xDEAD, BOB, "hi".to_string());
    assert_eq!(
        drain(&mut service, BOB, 2),
        vec![BroadcastMessage {
            room_id: 0,
            sender_id: 0xDEAD,
            content: "hi".to_string(),
            message_type: BroadcastMessageType::Private { to: BOB },
            timestamp: at,
        }]
    );
    assert_eq!(service.get_connection_manager().lookup_session(0xDEAD), None);
}

#[test]
fn text_in_the_nil_room_is_a_room_message() {
    let mut service = BroadcastService::new();
    for (user, handle) in [(ALICE, 1), (BOB, 2)] {
        service.register_session(user, handle);
        service.add_user_to_room(0, user, handle);
    }
    drain(&mut service, ALICE, 1);
    let at = service.broadcast_text_message(0, ALICE, "hi".to_string());
    assert_eq!(
        drain(&mut service, BOB, 2),
        vec![BroadcastMessage {
            room_id: 0,
            sender_id: ALICE,
            content: "hi".to_string(),
            message_type: BroadcastMessageType::Text,
            timestamp: at,
        }]
    );
    assert!(drain(&mut service, ALICE, 1).is_empty());
}

#[test]
fn stamp_is_not_before_the_epoch() {
    let mut service = quiet_room();
    let at = service.broadcast_typing(ROOM, ALICE);
    assert!(at.secs >= 0);
    assert!(at.secs < 1 << 48);
}
