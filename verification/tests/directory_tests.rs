use rusty_chat::directory::RoomDirectory;
use rusty_chat::ws_server::ChatServer;

#[test]
fn new_directory_is_empty() {
    let directory = RoomDirectory::new();
    assert_eq!(directory.len(), 0);
    assert_eq!(directory.find("r1"), None);
    assert_eq!(directory.name_of(1), None);
    assert_eq!(directory.name_of(0), None);
}

#[test]
fn every_text_names_a_room() {
    let mut directory = RoomDirectory::new();
    for name in ["r1", "general", "default", "", "a1a2a3a4-b1b2-c1c2-d1d2-d3d4d5d6d7d8", "caf\u{e9}"] {
        let id = directory.room_id_of(name);
        assert_ne!(id, 0);
        assert_eq!(directory.name_of(id), Some(name.to_string()));
        assert_eq!(directory.find(name), Some(id));
    }
    assert_eq!(directory.len(), 6);
}

#[test]
fn same_name_gives_the_same_room() {
    let mut directory = RoomDirectory::new();
    let first = directory.room_id_of("r1");
    let other = directory.room_id_of("r2");
    let again = directory.room_id_of("r1");
    assert_eq!(first, again);
    assert_ne!(first, other);
    assert_eq!(directory.len(), 2);
}

#[test]
fn ids_count_up_from_one() {
    let mut directory = RoomDirectory::new();
    assert_eq!(directory.room_id_of("a"), 1);
    assert_eq!(directory.room_id_of("b"), 2);
    assert_eq!(directory.room_id_of("a"), 1);
    assert_eq!(directory.room_id_of("c"), 3);
    assert_eq!(directory.name_of(2), Some("b".to_string()));
    assert_eq!(directory.name_of(4), None);
    assert_eq!(directory.name_of(u128::MAX), None);
}

#[test]
fn names_differ_by_case_and_space() {
    let mut directory = RoomDirectory::new();
    let lower = directory.room_id_of("room");
    let upper = directory.room_id_of("Room");
    let spaced = directory.room_id_of("room ");
    assert_ne!(lower, upper);
    assert_ne!(lower, spaced);
    assert_ne!(upper, spaced);
}

#[test]
fn finding_does_not_add() {
    let mut directory = RoomDirectory::new();
    directory.room_id_of("a");
    assert_eq!(directory.find("b"), None);
    assert_eq!(directory.len(), 1);
}

#[test]
fn server_keeps_one_directory() {
    let mut server = ChatServer::new();
    assert_eq!(server.find_room("r1"), None);
    let r1 = server.room_id_of("r1");
    let general = server.room_id_of("general");
    assert_ne!(r1, general);
    assert_eq!(server.room_id_of("r1"), r1);
    assert_eq!(server.find_room("general"), Some(general));
    assert_eq!(server.room_name(r1), Some("r1".to_string()));
    assert_eq!(server.room_name(0), None);
    assert!(server.connection_manager().get_room_users(r1).is_empty());
}
